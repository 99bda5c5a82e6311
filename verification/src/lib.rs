pub mod address;
pub mod errors;
pub mod instruction;
pub mod laws;
pub mod processor;
pub mod state;

use vstd::prelude::*;

verus! {

pub use crate::errors::DropyError;
pub use crate::instruction::DropyInstruction;
pub use crate::processor::process_instruction;
pub use crate::state::CampaignState;

} // verus!
