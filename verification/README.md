# mm_status_sync

A daemon that keeps a Mattermost status in step with the webcam: while a
camera is in use the custom status gets a meeting message and the
availability becomes "Do Not Disturb"; afterwards the saved status comes back.

- `src/` is the verified library (Verus): settings and their validation
  (`config`), text handling (`text`, `number`), the JSON status documents
  (`json`), what is sent to and read from the Mattermost API (`status`), how a
  camera is recognised in `/proc` (`camera`) and the decisions taken on each
  look at the camera, as a state machine (`sync`).
- `app/` is the program around it: `snapctl`, HTTP requests, the backup file,
  `/proc`, signals and the timer loop.  It performs the actions the state
  machine asks for and answers with what happened.
- `tests/` runs the library on concrete values.
