//! What holds of the controller in every state that it can reach, proved
//! over the model.

pub mod agreement;
pub mod assembly;
pub mod swap;
pub mod worker;
