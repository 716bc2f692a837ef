pub mod ohlc;
pub mod price;
