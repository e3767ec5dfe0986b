// Relays text messages and uploaded files from HTTP clients to a Telegram
// chat, and answers the bot's commands. The modules decide; the program
// around them does the network and disk work.

pub mod chat_data;
pub mod command;
pub mod files;
pub mod forward;
pub mod message;
