# raijin

A download manager: HTTP downloads split into byte-range parts, persisted in SQLite,
scheduled by queues and projected into a live monitor state.

`src/` is the verified library. Every function there has a contract that Verus proves:

- `download::model`: identifiers, byte counts, persisted enums (with read-back laws),
  items, parts and progress snapshots.
- `download::part`: splitting a file into near-equal inclusive byte ranges; the ranges
  are proved to partition the file, and part identifiers never collide.
- `download::http`: `Content-Range` / `Content-Length` parsing (a range's text reads
  back as that range), resume validation, the HTML-page check and the decisions of a
  metadata probe.
- `download::job`: the state changes of a download job, the ranged worker pool (never
  more workers than allowed) and how a run ends.
- `download::manager`: the manager's item transitions, progress snapshots and free file
  names.
- `queue`: queue membership, reordering, and scheduling that never starts more
  downloads than a queue allows.
- `monitor`: the speed meter and the projection of download events into active and
  completed views.
- `db`: conversions between domain values and SQLite columns, with read-after-write laws.
- `platform`, `ui`: the choice of data folders, the SQLite URL, the text shown by the
  desktop tables and settings, and the table's row ordering (a total preorder).

`app/` holds what talks to the outside world: the SQLite repositories, the reqwest
client, the download jobs and the tokio actors that drive the library.

There is no desktop window. Its widgets are drawn with the freya toolkit, which is not a
dependency of this crate, and drawing widgets is not logic to prove. What the desktop
tables and settings compute (their texts, row order, column labels and setting clamps)
is in `ui`, verified.
