# clipboard_mcp

A Model Context Protocol server that gives assistants read and write access to
the system clipboard. The decisions of the server live in a library verified
with Verus; a thin program around it talks to the clipboard and the network.

- `src/text.rs`: UTF-8 lengths, truncation at a character boundary
  (`truncate_text`, with the proof that it keeps the longest fitting prefix),
  decimal formatting.
- `src/reply.rs`: reply texts of the reading tools, truncation of long
  content, classification of clipboard reads.
- `src/formats.rs`: the formats found on the clipboard and their listing.
- `src/set_text.rs`: size limit and reply of `set_clipboard`.
- `src/watch.rs`: the state machine of `watch_clipboard` and its laws.
- `src/holder.rs`: the slot for the thread that keeps the clipboard alive.
- `src/http.rs`: browser rejection, loopback check, bind address.
- `src/error.rs`: tool errors.
- `app/main.rs`: command line, transports, clipboard access, tool plumbing.
