# perfbot

The verified core of the probe-rs performance bot, a web service that tracks
benchmark results of pull requests, comments on them, and answers chat
commands.

- `src/` is the library, verified with Verus: decimal rendering and parsing
  with a round-trip proof, ASCII case folding, the pairing of a run's
  measurements with those of the run before it, what counts as an
  improvement, the text of the pull request comments, the decisions taken
  on GitHub workflow notifications and on submitted measurements, and the
  chat commands.
- `app/` is the service around it: HTTP endpoints, database access, GitHub
  and chat clients, page rendering, and the floating-point figures.
- `tests/` exercises the library on concrete values.
