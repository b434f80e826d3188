# USB display bridge

A wired display bridge between an Android phone and a desktop: it mirrors the
phone's screen in a window, or streams a display of the desktop to the phone.

`src/` is the verified library. It holds every decision: which `adb` command is
run and what its reply means, how a session is set up and taken down again, how
the video is framed on the wire, how it is fed through the decoder and the
encoder, and when a picture is shown. Each session is a small machine with an
`action` and an `advance`; its contract is stated over a view of its state, and
the functions named `law_*` prove what holds over whole sessions.

| module | what it decides |
| --- | --- |
| `cli` | which job a subcommand asks for, what is printed and logged |
| `locate` | where `adb` is looked for |
| `adb` | the `adb` commands and their replies, devices, tunnels |
| `tunnel_test` | the acceptance test for tunnels |
| `capture`, `mirror` | mirror mode |
| `extend`, `preview` | extend mode, and its preview |
| `screencap`, `decode` | the course of encoding and decoding |
| `protocol` | the wire format |
| `frame`, `render` | pictures, the mailbox for them, the window |
| `text`, `failure` | text, and how a session failed |

`app/` is the program around it: processes, sockets, threads, FFmpeg and SDL.
