# herdr_file_viewer

A read-only file viewer for a terminal pane: a directory tree beside the content of the selected
file, with git status, diffs, search, annotations and hand-offs to editors and other programs.

The library in `src/` holds what the viewer decides and computes, and proves it with Verus. It
touches neither the terminal nor the file system nor git.

- `paths`, `text`, `fuzzy`, `finder`, `prompt`: paths as byte strings, texts, the fuzzy ranking of
  file names, and the inputs of overlays.
- `git`: the queries to git, with their guards against untrusted repositories, and the parsers of
  what it prints.
- `config`: the configuration file and the settings in effect.
- `renderers`, `view_policy`: the views of a file and the commands that render them.
- `clipboard`, `herdr`: the clipboard's escape sequence and the command line of the host.
- `selection`, `pointer`, `annotation`: selected lines, clicks and scrollbars, and notes on files.
- `controller`: the session. Each handler changes the state, returns what to do with the screen, and
  lists the actions that the run loop carries out; what an action brings back comes in through a
  reply function.

`app/` is ordinary Rust around the library: processes, the terminal and the run loop.
