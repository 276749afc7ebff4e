pub mod mongol_chat_type;
pub mod mongol_helper;
pub mod mongol_chat_info;
pub mod mongol_chat;
pub mod mongol_message;
