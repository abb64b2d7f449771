//! Email-forwarding rules of one account at a zone provider: the typed model of
//! rules, the resolution of partial user input into a complete rule, the fuzzy
//! lookup of the rule to delete, and the text shown for each entity.

pub mod cloudflare_api;
pub mod command;
pub mod config;
pub mod create_rule;
pub mod delete_rule;
pub mod display;
pub mod flow;
pub mod matching;
pub mod random;
pub mod text;
pub mod wire;
