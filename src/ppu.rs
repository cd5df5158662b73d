pub mod background;
pub mod bus;
pub mod frame;
pub mod palette;
pub mod palette_ram;
pub mod pattern_table;
pub mod ppu;
pub mod registers;
pub mod render;
pub mod sprite;
pub mod tile;
