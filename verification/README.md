# handy

The control socket of the Handy speech-to-text app, and the `handy` command that
talks to it: `handy FILE.wav` transcribes a file with the model that the running
app already has in memory.

`src/` is the library, verified with Verus. It decides and computes; it does no
I/O. Where work has to be done outside, a state machine says what to do next and
takes what came of it.

| module | what it holds |
| --- | --- |
| `protocol` | frames, newline framing, inline audio, sample encodings |
| `endpoint`, `transport` | where the socket lives, who may use it, how it is bound |
| `client` | connecting, the handshake, replies, the idle watchdog, interrupts |
| `server` | admission, the connection's reader and dispatcher, job reports |
| `engine_lease` | exclusive access to the engine, dictations first |
| `handlers` | a transcription job from its audio to its answer; the status report |
| `audio` | WAV headers and samples, recordings |
| `cli` | routing a command line, running it, what is printed, exit statuses |
| `shortcut` | which global shortcuts may be registered, and when |
| `paths` | joining paths, the name of a file |
| `text` | numerals, searching, splitting |

Promises that span several functions stand as public proof functions, named
`law_…`, next to what they speak of.

`app/` is the program around the library: files, sockets, threads, clocks, JSON,
floating-point audio and the shortcut plugin. `tests/` runs the library.
