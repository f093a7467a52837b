use vstd::prelude::*;

use crate::emoji::{parse_emoji, emoji_text};
use crate::fmt::{decimal, push_decimal, push_signed_decimal, signed_decimal};
use crate::settings::StarboardSettings;

verus! {

/// A subcommand of `/starboard`, with its argument.
pub enum SettingsCommand {
    Enable,
    Disable,
    Threshold(i64),
    Emoji(String),
    Channel(u64),
}

/// A change to one field of a server's starboard settings.
pub enum SettingsChange {
    Enabled(bool),
    Threshold(i64),
    Emoji(String),
    Channel(i64),
}

/// What a subcommand does: the change it stores, if any, and what it answers.
pub struct CommandPlan {
    pub change: Option<SettingsChange>,
    pub reply: String,
}

/// What a subcommand stores and answers. A threshold below one and a text that
/// is no emoji are refused with an explanation and store nothing.
pub open spec fn plan_matches(command: SettingsCommand, plan: CommandPlan) -> bool {
    match command {
        SettingsCommand::Enable => {
            &&& plan.change == Some(SettingsChange::Enabled(true))
            &&& plan.reply@ == "Starboard enabled"@
        },
        SettingsCommand::Disable => {
            &&& plan.change == Some(SettingsChange::Enabled(false))
            &&& plan.reply@ == "Starboard disabled"@
        },
        SettingsCommand::Threshold(value) => if value < 1 {
            &&& plan.change is None
            &&& plan.reply@ == "Threshold must be >= 1"@
        } else {
            &&& plan.change == Some(SettingsChange::Threshold(value))
            &&& plan.reply@ == "Threshold set: "@ + signed_decimal(value as int)
        },
        SettingsCommand::Emoji(text) => if emoji_text(text@) is None {
            &&& plan.change is None
            &&& plan.reply@ == "Emoji could not be recognized. Use a standard Unicode emoji or a custom server emoji."@
        } else {
            &&& plan.change matches Some(SettingsChange::Emoji(stored)) && stored@ == text@
            &&& plan.reply@ == "Emoji set: "@ + text@
        },
        SettingsCommand::Channel(id) => {
            &&& plan.change == Some(SettingsChange::Channel(id as i64))
            &&& plan.reply@ == "Channel set: <#"@ + decimal(id as nat) + ">"@
        },
    }
}

/// Decides what a `/starboard` subcommand stores and answers.
pub fn plan_command(command: SettingsCommand) -> (plan: CommandPlan)
    ensures
        plan_matches(command, plan),
{
    match command {
        SettingsCommand::Enable => CommandPlan {
            change: Some(SettingsChange::Enabled(true)),
            reply: String::from_str("Starboard enabled"),
        },
        SettingsCommand::Disable => CommandPlan {
            change: Some(SettingsChange::Enabled(false)),
            reply: String::from_str("Starboard disabled"),
        },
        SettingsCommand::Threshold(value) => {
            if value < 1 {
                CommandPlan { change: None, reply: String::from_str("Threshold must be >= 1") }
            } else {
                let mut reply = String::from_str("Threshold set: ");
                push_signed_decimal(&mut reply, value);
                CommandPlan { change: Some(SettingsChange::Threshold(value)), reply }
            }
        },
        SettingsCommand::Emoji(text) => {
            let parsed = parse_emoji(text.as_str());
            if parsed.is_none() {
                CommandPlan {
                    change: None,
                    reply: String::from_str(
                        "Emoji could not be recognized. Use a standard Unicode emoji or a custom server emoji.",
                    ),
                }
            } else {
                let mut reply = String::from_str("Emoji set: ");
                reply.append(text.as_str());
                CommandPlan { change: Some(SettingsChange::Emoji(text)), reply }
            }
        },
        SettingsCommand::Channel(id) => {
            let mut reply = String::from_str("Channel set: <#");
            push_decimal(&mut reply, id);
            reply.append(">");
            CommandPlan { change: Some(SettingsChange::Channel(id as i64)), reply }
        },
    }
}

/// The settings after a change: the one field changed, the others kept.
pub fn apply_change(settings: StarboardSettings, change: SettingsChange) -> (r: StarboardSettings)
    ensures
        r.guild_id == settings.guild_id,
        r.enabled == (if let SettingsChange::Enabled(b) = change { b } else { settings.enabled }),
        r.threshold == (if let SettingsChange::Threshold(t) = change { t } else { settings.threshold }),
        r.emoji@ == (if let SettingsChange::Emoji(e) = change { e@ } else { settings.emoji@ }),
        r.channel_id == (if let SettingsChange::Channel(c) = change { Some(c) } else { settings.channel_id }),
{
    match change {
        SettingsChange::Enabled(b) => StarboardSettings { enabled: b, ..settings },
        SettingsChange::Threshold(t) => StarboardSettings { threshold: t, ..settings },
        SettingsChange::Emoji(e) => StarboardSettings { emoji: e, ..settings },
        SettingsChange::Channel(c) => StarboardSettings { channel_id: Some(c), ..settings },
    }
}

/// A command stores only an emoji that parses as a reaction emoji.
pub proof fn lemma_stored_emoji_parses(command: SettingsCommand, plan: CommandPlan)
    requires
        plan_matches(command, plan),
    ensures
        plan.change matches Some(SettingsChange::Emoji(e)) ==> emoji_text(e@) is Some,
{
}

/// Settings whose threshold is at least one keep it so through every change a
/// command plans: changes keep each field's invariant.
pub proof fn lemma_threshold_positive_kept(settings_threshold: i64, command: SettingsCommand, plan: CommandPlan)
    requires
        settings_threshold >= 1,
        plan_matches(command, plan),
    ensures
        (if let Some(SettingsChange::Threshold(t)) = plan.change { t } else { settings_threshold }) >= 1,
{
}

/// The emoji command refuses a text exactly when it is no reaction emoji; any
/// emoji, Unicode or custom, animated or not, is stored as written and
/// confirmed with "Emoji set: " and the text.
pub proof fn lemma_every_emoji_is_stored(text: String, plan: CommandPlan)
    requires
        plan_matches(SettingsCommand::Emoji(text), plan),
    ensures
        (plan.change is Some) == (emoji_text(text@) is Some),
        emoji_text(text@) is Some ==> (plan.change matches Some(SettingsChange::Emoji(e)) && e@ == text@)
            && plan.reply@ == "Emoji set: "@ + text@,
{
}

/// The threshold command refuses exactly the values below one and stores any
/// other as given; the other commands always store their change.
pub proof fn lemma_command_changes(command: SettingsCommand, plan: CommandPlan)
    requires
        plan_matches(command, plan),
    ensures
        command matches SettingsCommand::Threshold(v) ==> (plan.change is Some) == (v >= 1)
            && (v >= 1 ==> plan.change == Some(SettingsChange::Threshold(v))),
        command is Enable ==> plan.change == Some(SettingsChange::Enabled(true)),
        command is Disable ==> plan.change == Some(SettingsChange::Enabled(false)),
        command matches SettingsCommand::Channel(id) ==> plan.change == Some(SettingsChange::Channel(id as i64)),
{
}

} // verus!
