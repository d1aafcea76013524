# ellie

The decision-making core of Ellie, a Discord bot, as a Verus library.

`src/` holds what the bot's commands compute: the texts and embeds they
answer with, the parsing of their arguments, the reading of what the web
services sent back, and the rules that pick one answer over another. Each
public function states its result in an `ensures` clause over spec
functions, and Verus proves the bodies against them. Calls into other
crates (chrono, humantime, byte-unit, percent-encoding, aspotify and one
serenity formatter) stand behind small trusted wrappers whose contracts say
what those crates do.

`app/` is the bot around it: the serenity command handlers, the HTTP and
database calls, and the conversions between the services' JSON and Discord's
models and the library's types (reading mentions and ids, turning the
services' timestamps into seconds). Every answer a command gives comes
from the library; the help texts stand in the command attributes.

`tests/` runs the library on concrete values.
