//! Sentinel: NOAA alert relay logic (deduplication, fan-out delivery, failure
//! spooling and replay, source health and dashboard rendering).
pub mod text;
pub mod alert;
pub mod event_contracts;
pub mod event_emitter;
pub mod spool;
pub mod sender;
pub mod normalized_alert;
pub mod dedup;
pub mod replay;
pub mod event_log_reader;
pub mod dashboard_view;
pub mod page_markup;
pub mod nws_client;
pub mod source_health;
pub mod nws_polling;
pub mod alert_id;
pub mod helper_command;
pub mod lxmf_sender;
pub mod meshcore_sender;
pub mod discord_sender;
pub mod meshtastic_sender;
pub mod cli;
pub mod same_alerts;
