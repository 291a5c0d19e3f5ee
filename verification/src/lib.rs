pub mod decimal;
pub mod fixed;
pub mod progression;
pub mod threshold;
pub mod time;
pub mod voting;
pub mod weight;
pub mod window;
