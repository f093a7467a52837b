# loona

The core of a Discord starboard bot, verified with Verus: a message that
collects enough reactions with a server's chosen emoji is copied to the
server's starboard channel, kept up to date when it is edited or its reactions
change, and removed when it is deleted or falls below the threshold.

- `src/` is the verified library.
  - `handler.rs`: the starboard as a state machine. Each step takes where the
    handling of an event stands and what Discord or the database answered,
    and returns the next stage and the next action to perform.
  - `commands.rs`: what the `/starboard` subcommands store and answer.
  - `settings.rs`: a server's settings and starboard posts, and their defaults.
  - `post.rs`: the text and embed of a starboard message.
  - `emoji.rs`: reaction emojis, parsed with serenity.
  - `translation.rs`: localisation of slash commands and of texts, looked up
    with fluent-templates.
  - `fmt.rs`: decimal notation of integers.
  - `config.rs`: the configuration.
- `app/` is the program around it: the Discord client (poise), the database
  (sea-orm), the configuration file, and the loop that performs the actions
  that the library decides on.
- `tests/` holds the tests of the library.
