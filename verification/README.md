# fyles_core

The core of a service that asks others for files: it keeps file requests and contacts, decides who
may drop a file for which request, follows the transfers in both directions and answers its clients
and the network node.

What decides or computes is in `src/` and is proved with Verus, but for two things: numbers with a
fraction, and values that serde turns into bytes. Those are in `app/`, with everything that touches
the disk, the network, the database or the clock: it carries out what the library asks for and hands
back what came of it.

## Layout

- `domain_models`, `wire`, `domain_proto_conversion`: requests, contacts and files, and what they
  look like to clients.
- `brain`: what follows from each action of a client or of the network node, as steps from a state
  and a reply to the next question or answer.
- `db`, `sqlite`, `mocks`: what a database is asked and answers; the statements, rows and migrations
  of the stored form; a database in memory.
- `filerequest_drive_handler`, `direct_fs_controller`, `io_controller`: where files are put.
- `api_server`, `endpoint`, `daemon`: the interface to clients and its configuration.
- `crypto`, `rolling_nonce_window`: keys and encrypted sessions.
- `i18n`, `notification`: texts for people.
- `bounded_list`, `ttlmap`, `text`, `util`: what the others are made of.

Public functions state in `ensures` what they return or change. Public proof functions whose names
begin with `law_` state what holds of several functions together. Functions that call an outside
crate carry `#[verifier::external_body]`, with a comment that says what is taken for granted of the
crate.
