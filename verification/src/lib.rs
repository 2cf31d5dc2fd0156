pub mod classification;
pub mod cli;
pub mod date_text;
pub mod decimal;
