# panoptic

The verified core of Panoptic, a streaming toolkit: now-playing detection
and formatting, the Spotify and Twitch sign-in flows, the Twitch EventSub
event manager (hype train, alerts, chat, session counters), OBS WebSocket
control, Discord Rich Presence, the Pomodoro timer, overlays and the local
HTTP server's answers.

- `src/` is the library. Every function in it carries a `requires`/`ensures`
  contract checked by Verus; calls into other crates (Base64, SHA-256,
  random numbers, URL parsing, MIME guessing, JSON quoting, the asset cache's
  concurrent map, UUIDs) go through small wrappers whose contracts say what
  those crates document; where the answer depends on the machine (random
  numbers, the clock, the local path of a `file:` URL, the media type
  guessed from a path) they say only what
  holds of every answer, and a verified function takes the answer as an
  argument. Public proof functions named `law_*` state
  properties that hold across calls (timer cadence, bounded queues, the
  update-check rate limit, the OBS handshake, button handling). The engine's
  priority chain (native media source first, the Spotify Web API as the
  fallback) is `media_sources` with `provider_step`.
- `tests/` runs the library on concrete values.
- `app/` is the program around it: settings on disk, the Axum server, the
  WebSocket and D-Bus connections, HTTP requests and the timing loops. It
  hands plain values to the library and acts on what comes back.
