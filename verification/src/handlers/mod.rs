pub mod game;
pub mod twilio;
