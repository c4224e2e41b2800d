pub mod contract;
pub mod error;
pub mod msg;
pub mod response;
pub mod state;
pub mod storage;
