pub mod errors;
pub mod address;
pub mod utility;
pub mod fields;
pub mod account_info;
pub mod discriminator;
pub mod decode_instruction;
pub mod cpi;
pub mod system_program;
pub mod ser;
pub mod pda;
pub mod accounts;
pub mod context;
pub mod dispatch;
pub mod instruction;
pub mod token;
pub mod token2022;
pub mod scaffold;
