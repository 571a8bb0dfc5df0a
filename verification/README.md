# fileslink

A bot stores files in a Telegram channel, and a web server hands them out by link.

- `src/` holds what the service decides and computes, verified with Verus: file names and sizes as
  they are shown, the pages, and one state machine for each exchange (an upload, a download, the
  work queue, storing a file, announcing its link). A state names the one thing to do next; a step
  function takes the state and what came of it to the next state.
- `app/` does what the states ask for, with axum, teloxide, reqwest and tokio. Configuration, the
  storage of records and the form of links come from the program around it, through the trait
  `Host`.
- `tests/` runs the library on concrete values.
