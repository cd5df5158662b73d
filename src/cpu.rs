pub mod bus;
pub mod cpu;
pub mod fetch;
pub mod instructions;
pub mod opecode;
pub mod registers;
