pub mod alarm;
pub mod module;
pub mod virt;
pub mod text_format;
