# legalminds_frontend

The verified core of the LegalMinds case workbench front end: everything the
workbench decides, computes or builds from text, proved correct with Verus.

- `src/` is the library. Each public function states in its contract what it
  returns, and the laws of the workbench (what a panel operation undoes, what
  an insertion keeps, where a dragged node lands, when a write may run) are
  proved as public proof functions.
  - `shell`, `view_model`, `labels`: the workspace shell, its view models and
    labels.
  - `session`, `header`: the session's sign-in state and the header's texts.
  - `chat`, `previews`, `execution`: what a chat message asks for, the checks
    that turn a form into a pending write, and what a confirmed write needs,
    reports and changes in the workspace.
  - `drag`: dropping a dragged node on the canvas, and undoing the move.
  - `timeline`, `canvas`, `person_graph`: dates, the node-creation command,
    tags, drag-and-drop ordering, the canvas's order and lanes, and the person
    graph's columns.
  - `api`, `paths`, `models`: request URLs and queries, download names,
    multipart bodies and the API's records.
  - `forms`, `cases`, `files`, `search`, `persons`: what each page checks
    before it calls the server (the session, required fields, upload size),
    the calls it then makes, the pager, and the file reader's view.
  - `text`: the string operations everything above is specified with.
- `app/` is a console front end around the library: it makes the HTTP calls,
  decodes JSON into the library's records and prints the answers.
- `tests/` runs the library on concrete values.
