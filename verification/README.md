# Play release song

Plays a release song on all Sonos devices of the local network, on demand or when
a CI pipeline is triggered.

- `src/` is the library, written in Verus: the requests to the speakers, what is
  read from their replies, the cooldown between two plays, the judgement on the
  runs of a pipeline, and the state machines that decide what is done next.
- `app/` is the program around it: the command line, sockets, HTTP, and the time of a
  search and of a check of the pipeline.
- `tests/` holds tests of the library.

The library prints nothing and opens no connection; of the machine it reads the
clock alone, for the cooldown. Each of its state machines
takes what happened and gives the lines to print and what to do next; the program
does that and reports back.

    release_song start [--track URI]
    release_song listen --repo OWNER/REPO [--branch main] [--interval 60]
    release_song kill
