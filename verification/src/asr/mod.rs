pub mod native;
pub mod omni_plus;
pub mod realtime;
