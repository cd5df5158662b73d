pub mod arithmetic;
pub mod branch;
pub mod decrement;
pub mod flags;
pub mod increment;
pub mod jump;
pub mod load;
pub mod logical;
pub mod shift;
pub mod stack;
pub mod store;
pub mod system;
pub mod transfer;
