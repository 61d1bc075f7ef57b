# ramp

A local music library: it scans a music folder, reads each audio file's
tags, and keeps an SQLite catalogue of tracks, artists, albums and the files
they come from.

- `src/` is the verified core (Verus). It holds the catalogue's entities,
  every SQL statement the library issues together with its parameters, the
  tag-to-metadata rules, the artist-field splitting, the choice of files to
  register, and the registration of one file as a state machine that hands
  out one statement at a time and takes the database's answer back.
- `app/` is the program around it: it opens the database with `rusqlite`,
  walks the folder with `walkdir`, finds it with `dirs`, reads tags with
  `lofty`, runs the statements the core hands out and feeds the answers back.
- `tests/` exercises the core on concrete values, including a stand-in
  catalogue that answers the registration state machine.
