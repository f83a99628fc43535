pub mod bootrom;
pub mod cartridge;
pub mod ram;
