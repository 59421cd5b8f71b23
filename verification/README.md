# strux

`strux` reads a markdown file that describes a directory structure — file
headers followed by code blocks, deleted-file and moved-file headers — and
applies the actions it describes under an output directory.

The library is written in Verus and verified:

- `src/parser/` turns markdown into a list of actions. The header grammar
  (`grammar.rs`), the fence matching (`fences.rs`) and the three passes
  (`pass1/`, `pass2/`, `pass3/`) are specified over character sequences in
  `semantics.rs`; `parse_markdown` returns exactly what that specification
  gives, sorted by header position, with every action well formed
  (`wellformed.rs`).
- `src/processor/` applies actions as a state machine: it asks for one
  file-system operation at a time (`protocol.rs`) and decides from each
  reply. No change is requested for a path until its safety check has
  answered "safe" (`safety.rs`, `action_handler.rs`), and that answer is
  given only on stated grounds: the path, resolved by the file system,
  starts with the resolved base; or its nearest existing ancestor resolves
  to the base or to a directory inside it, and the missing components
  below that ancestor never climb above it through `..`. What "resolved" and "starts with"
  mean is left to the file system's replies and to `std::path`. Existing
  files are replaced only when overwriting, and the summary counts each
  action once.
- `src/report.rs` lays out the summary text: which counter stands on
  which line under which label, and each count in decimal
  (`summary_lines`). `app/` only prints the lines.
- `app/` is the command-line program: argument parsing, reading the input
  file, performing the requested file-system operations, and printing the
  summary.

Usage: `strux [-o DIR] [-f] MARKDOWN_FILE` (default output directory
`./project-generated`).

## Design notes

- The parser records the header positions and code-block ranges it has
  used in `Vec`s (`parser/state.rs`), and the repeated-path report scans
  the actions linearly (`parser/action_checker.rs`). They are only added
  to and searched (for a member, or for a range that holds a position),
  never read in an order, so a set or map would behave the same. They stay
  sequences because the specification of the three passes is written over
  sequences, with each pass's state a plain value, and because the
  repeated-path report is keyed by path text, for which the hash-map
  specifications of the verification library give no usable key model;
  with sequences every lookup is proved against that specification.
