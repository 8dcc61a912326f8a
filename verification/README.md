# branchfy

Plays a Spotify playlist chosen by the prefix of the current git branch.

- `src/` is the verified library: the prefix-to-playlist configuration
  (`config`), the branch watcher (`watcher`), the daemon's start decisions
  (`daemon`), the playback session and progress display (`player`), the
  command line plans (`cli`) and character-level string helpers (`text`).
- `app/` is the program around it: argument parsing, files, git, the
  Spotify client, the terminal progress bar and the polling loops.
- `tests/` runs the library on concrete values.
