use vstd::prelude::*;
use crate::text::string_of;
use crate::workflow::{copy_string, opt_view};

verus! {

/// The messaging-platform settings the send commands read.
#[derive(Debug)]
pub struct PlatformSendConfig {
    pub telegram_enabled: bool,
    pub telegram_bot_token: Option<String>,
    pub discord_enabled: bool,
    pub discord_webhook_url: Option<String>,
}

/// Why a message cannot be sent.
#[derive(PartialEq, Eq, Structural, Clone, Copy, Debug)]
pub enum PlatformSendError {
    TelegramDisabled,
    NoTelegramToken,
    DiscordDisabled,
    NoDiscordWebhook,
}

impl PlatformSendError {
    /// The message the command reports.
    pub fn message(&self) -> (r: String)
        ensures
            r@ == match *self {
                PlatformSendError::TelegramDisabled => "Telegram integration is not enabled"@,
                PlatformSendError::NoTelegramToken => "Telegram bot token not configured"@,
                PlatformSendError::DiscordDisabled => "Discord integration is not enabled"@,
                PlatformSendError::NoDiscordWebhook => "Discord webhook URL not configured"@,
            },
    {
        match self {
            PlatformSendError::TelegramDisabled => string_of("Telegram integration is not enabled"),
            PlatformSendError::NoTelegramToken => string_of("Telegram bot token not configured"),
            PlatformSendError::DiscordDisabled => string_of("Discord integration is not enabled"),
            PlatformSendError::NoDiscordWebhook => string_of("Discord webhook URL not configured"),
        }
    }
}

/// The bot token to send a Telegram message with: Telegram must be
/// enabled, then a token configured.
pub fn telegram_send_token(cfg: &PlatformSendConfig) -> (r: Result<String, PlatformSendError>)
    ensures
        !cfg.telegram_enabled ==> r == Err::<String, PlatformSendError>(PlatformSendError::TelegramDisabled),
        cfg.telegram_enabled && cfg.telegram_bot_token is None ==> r == Err::<String, PlatformSendError>(
            PlatformSendError::NoTelegramToken,
        ),
        cfg.telegram_enabled && cfg.telegram_bot_token is Some ==> (r matches Ok(t) && Some(t@) == opt_view(
            cfg.telegram_bot_token,
        )),
{
    if !cfg.telegram_enabled {
        return Err(PlatformSendError::TelegramDisabled);
    }
    match &cfg.telegram_bot_token {
        Some(t) => Ok(copy_string(t)),
        None => Err(PlatformSendError::NoTelegramToken),
    }
}

/// The webhook to post a Discord message to: Discord must be enabled, then
/// a webhook configured.
pub fn discord_send_webhook(cfg: &PlatformSendConfig) -> (r: Result<String, PlatformSendError>)
    ensures
        !cfg.discord_enabled ==> r == Err::<String, PlatformSendError>(PlatformSendError::DiscordDisabled),
        cfg.discord_enabled && cfg.discord_webhook_url is None ==> r == Err::<String, PlatformSendError>(
            PlatformSendError::NoDiscordWebhook,
        ),
        cfg.discord_enabled && cfg.discord_webhook_url is Some ==> (r matches Ok(u) && Some(u@) == opt_view(
            cfg.discord_webhook_url,
        )),
{
    if !cfg.discord_enabled {
        return Err(PlatformSendError::DiscordDisabled);
    }
    match &cfg.discord_webhook_url {
        Some(u) => Ok(copy_string(u)),
        None => Err(PlatformSendError::NoDiscordWebhook),
    }
}

} // verus!
