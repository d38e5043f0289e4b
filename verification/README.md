# OKO monitor

A parental-control system for Windows in four programs: a core service that
ends forbidden processes, a watchdog that keeps the service alive, a terminal
monitor and a tray agent. This crate holds what they decide and compute,
proved with Verus; `app/` holds the programs themselves.

## Layout

| Modules | What they hold |
| --- | --- |
| `db`, `sqlite`, `digest` | the policy database: blocked processes and the master password |
| `admin`, `client` | the administration protocol, on the service's and on a client's side |
| `health`, `network`, `parser`, `watchdog` | heartbeats, the two pipes of the service, listening and restarting |
| `process`, `utf16`, `casing` | which running processes are ended |
| `service`, `scm` | life as a Windows service, installation and removal |
| `monitor`, `screen`, `translate`, `timestamps`, `layout` | the terminal monitor |
| `tray`, `dialog`, `machine_id` | the tray agent |
| `text`, `numbers`, `audit` | what the others share |

Proof functions whose names begin with `law_` state what holds across
functions: that a password that was set is accepted, that a beating service is
never restarted, that the service understands the lines its clients send, and
so on. The last has exceptions that its laws name: a suspension or a resumption
with a password that is empty or ends in white space, and a change of the block
list with a password that holds a space.

## What is taken on trust

SQLite (`sqlite`), SHA-256 (`digest`), the parser of RFC 3339 times
(`timestamps`), the random letters of a machine's name (`machine_id`), the
split of a terminal area (`layout`) and four functions of the standard library
(`text`, `casing`, `utf16`). Each such item says in its doc comment what is
claimed of the function that it calls.

## Programs

`app/` is one executable whose name decides which program runs:
`core-service`, `watchdog-utility`, `monitor-cli` or `tray-agent`. Pipes,
windows, the clock, files and the service control manager are dealt with
there.
