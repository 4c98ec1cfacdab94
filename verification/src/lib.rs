pub mod ff;
pub mod helpers;
pub mod pipeline;
pub mod protocol;
pub mod secret_sharing;
