pub mod deal;
