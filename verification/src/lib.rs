//! Payment connectors for two Vietnamese gateways, VNPay and MoMo.
pub mod clock;
pub mod codec;
pub mod ids;
pub mod json;
pub mod momo;
pub mod params;
pub mod signing;
pub mod text;
pub mod types;
pub mod vnpay;
