//! The SSD1677 command sequence that writes one full monochrome frame.
//!
//! The engine is a fixed table and keeps no state: the scheduler tracks
//! which step is in flight.

use vstd::prelude::*;
use crate::panel::{BUF_LEN, HEIGHT, WIDTH};

verus! {

/// Software reset; the controller acknowledges it before the next command.
pub const CMD_SW_RESET: u8 = 0x12;

/// Set the first and last RAM column of the address window.
pub const CMD_RAM_X_WINDOW: u8 = 0x44;

/// Set the first and last RAM row of the address window.
pub const CMD_RAM_Y_WINDOW: u8 = 0x45;

/// Set the RAM column counter.
pub const CMD_RAM_X_COUNTER: u8 = 0x4E;

/// Set the RAM row counter.
pub const CMD_RAM_Y_COUNTER: u8 = 0x4F;

/// Write the black/white RAM; the frame's bytes follow.
pub const CMD_WRITE_RAM_BW: u8 = 0x24;

/// Display update control 2: choose the update sequence.
pub const CMD_DISPLAY_UPDATE_CONTROL: u8 = 0x22;

/// Master activation: run the chosen update sequence.
pub const CMD_MASTER_ACTIVATION: u8 = 0x20;

/// Enter deep sleep.
pub const CMD_DEEP_SLEEP: u8 = 0x10;

/// Number of steps in a full-frame write.
pub const STEP_COUNT: usize = 9;

/// One bus operation of a sequence.
#[derive(Debug, PartialEq, Eq)]
pub enum Step {
    /// A command byte followed by its parameter bytes.
    CommandOnly { bytes: Vec<u8> },
    /// A command, then `len` bytes of the frame buffer starting at `offset`.
    CommandWithData { bytes: Vec<u8>, offset: usize, len: usize },
}

/// What a [`Step`] is, over sequences of bytes.
pub enum StepModel {
    CommandOnly { bytes: Seq<u8> },
    CommandWithData { bytes: Seq<u8>, offset: nat, len: nat },
}

impl View for Step {
    type V = StepModel;

    open spec fn view(&self) -> StepModel {
        match self {
            Step::CommandOnly { bytes } => StepModel::CommandOnly { bytes: bytes@ },
            Step::CommandWithData { bytes, offset, len } => StepModel::CommandWithData {
                bytes: bytes@,
                offset: *offset as nat,
                len: *len as nat,
            },
        }
    }
}

impl StepModel {
    /// The command and parameter bytes of the step.
    pub open spec fn bytes(self) -> Seq<u8> {
        match self {
            StepModel::CommandOnly { bytes } => bytes,
            StepModel::CommandWithData { bytes, .. } => bytes,
        }
    }
}

/// The steps of a full-frame write, in the order in which they are issued.
pub open spec fn sequence() -> Seq<StepModel> {
    seq![
        StepModel::CommandOnly { bytes: seq![CMD_SW_RESET] },
        StepModel::CommandOnly { bytes: seq![CMD_RAM_X_WINDOW, 0x00u8, 0x00u8, 0x17u8, 0x01u8] },
        StepModel::CommandOnly { bytes: seq![CMD_RAM_Y_WINDOW, 0x00u8, 0x00u8, 0xDFu8, 0x01u8] },
        StepModel::CommandOnly { bytes: seq![CMD_RAM_X_COUNTER, 0x00u8, 0x00u8] },
        StepModel::CommandOnly { bytes: seq![CMD_RAM_Y_COUNTER, 0x00u8, 0x00u8] },
        StepModel::CommandWithData {
            bytes: seq![CMD_WRITE_RAM_BW],
            offset: 0,
            len: BUF_LEN as nat,
        },
        StepModel::CommandOnly { bytes: seq![CMD_DISPLAY_UPDATE_CONTROL, 0xF7u8] },
        StepModel::CommandOnly { bytes: seq![CMD_MASTER_ACTIVATION] },
        StepModel::CommandOnly { bytes: seq![CMD_DEEP_SLEEP, 0x01u8] },
    ]
}

/// The step at `index`, or `None` past the end of the sequence.
pub open spec fn step_model(index: int) -> Option<StepModel> {
    if 0 <= index < sequence().len() {
        Some(sequence()[index])
    } else {
        None
    }
}

/// The sequence has [`STEP_COUNT`] steps.
pub proof fn lemma_sequence_len()
    ensures
        sequence().len() == STEP_COUNT,
{
}

/// The step to issue at `current_index`: the entry of [`sequence`] at that
/// index, or `None` once the sequence is exhausted.
pub fn next_step(current_index: usize) -> (r: Option<Step>)
    ensures
        r is Some <==> current_index < STEP_COUNT,
        r matches Some(s) ==> step_model(current_index as int) == Some(s@),
        r is None ==> step_model(current_index as int) is None,
{
    let r = match current_index {
        0 => Some(Step::CommandOnly { bytes: vec![CMD_SW_RESET] }),
        1 => Some(Step::CommandOnly { bytes: vec![CMD_RAM_X_WINDOW, 0x00, 0x00, 0x17, 0x01] }),
        2 => Some(Step::CommandOnly { bytes: vec![CMD_RAM_Y_WINDOW, 0x00, 0x00, 0xDF, 0x01] }),
        3 => Some(Step::CommandOnly { bytes: vec![CMD_RAM_X_COUNTER, 0x00, 0x00] }),
        4 => Some(Step::CommandOnly { bytes: vec![CMD_RAM_Y_COUNTER, 0x00, 0x00] }),
        5 => Some(
            Step::CommandWithData { bytes: vec![CMD_WRITE_RAM_BW], offset: 0, len: BUF_LEN },
        ),
        6 => Some(Step::CommandOnly { bytes: vec![CMD_DISPLAY_UPDATE_CONTROL, 0xF7] }),
        7 => Some(Step::CommandOnly { bytes: vec![CMD_MASTER_ACTIVATION] }),
        8 => Some(Step::CommandOnly { bytes: vec![CMD_DEEP_SLEEP, 0x01] }),
        _ => None,
    };
    proof {
        lemma_sequence_len();
        if r is Some {
            assert(r.unwrap()@.bytes() =~= sequence()[current_index as int].bytes());
        }
    }
    r
}

/// Exactly one step carries frame data, and it carries the whole frame from
/// its first byte.
pub proof fn lemma_single_data_step(i: int)
    requires
        0 <= i < STEP_COUNT,
    ensures
        sequence()[i] is CommandWithData <==> i == 5,
        sequence()[5] == (StepModel::CommandWithData {
            bytes: seq![CMD_WRITE_RAM_BW],
            offset: 0,
            len: BUF_LEN as nat,
        }),
{
}

/// The address window set up before the data step spans the whole panel:
/// columns 0 to `WIDTH - 1` and rows 0 to `HEIGHT - 1`, low byte first.
pub proof fn lemma_window_spans_panel()
    ensures
        sequence()[1].bytes()[1] + 256 * sequence()[1].bytes()[2] == 0,
        sequence()[1].bytes()[3] + 256 * sequence()[1].bytes()[4] == WIDTH - 1,
        sequence()[2].bytes()[1] + 256 * sequence()[2].bytes()[2] == 0,
        sequence()[2].bytes()[3] + 256 * sequence()[2].bytes()[4] == HEIGHT - 1,
{
}

} // verus!
