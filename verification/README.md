# echo

The command logic of Echo, a Discord music bot built on Serenity and
Songbird, as a verified library.

- `src/` holds what each command decides, as functions from plain values to
  the reply it sends (`reply::Reply`, `reply::Embed`) or the next step it
  takes, each with a contract proved by Verus: `choice`, `help`, `ping`,
  `virustotal` (the `scan` command), and `music` (`join`, `leave`, `play`,
  `stop`, `skip`, `pause`, `resume`). `text` holds decimal numbers, argument
  parsing and substring tests; `args` reads a command's first argument.
- `tests/` exercises the library.
- `app/` is the bot itself: it connects to Discord, runs yt-dlp and the voice
  driver, and sends what the library returns.
