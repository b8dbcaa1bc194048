# save_syncer

A verified library for a save-file synchroniser.

- `save`: save metadata and `decide_action`, which decides whether a save is
  pulled to the device, pushed to the remote, left alone, or refused.
- `homepage`: the home screen of the handheld user interface as a state
  machine: selection moves, poll-interval steps, the action a button release
  asks for and what follows it, and what each control and row shows.
- `stream`: what remains of the command socket's byte buffer once the
  commands at its front have been read.
- `logging`: the log style chosen by environment switches.
- `digest`: the trusted calls into `md5` and `chrono`.

`app/` holds the command-line front end, which compares a save file on disk
with a remote save record read from JSON, together with a home-screen driver
and a command-socket listener, both generic over the system services and the
command type they are given.
