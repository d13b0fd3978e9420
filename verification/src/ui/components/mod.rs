pub mod call;
pub mod icon;
