//! Conversion of RGB raster images into the 1024-byte monochrome buffer of a
//! 128x64 SSD1306 OLED controller.
pub mod frame;
pub mod oled;
pub mod resize;
pub mod convert;
pub mod laws;
