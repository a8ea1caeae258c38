//! Audio-side logic: types, the mixer's sample bookkeeping and PCM decoding.
pub mod types;
pub mod layout;
pub mod mixer;
pub mod capture;
