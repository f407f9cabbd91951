pub mod counter;
pub mod db;
pub mod driver;
pub mod errors;
pub mod machine;
pub mod onboarding;
pub mod requests;
pub mod response;
pub mod rows;
