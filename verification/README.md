# Auru PM, the desktop application

Auru PM keeps the history of music projects with a provider, and brings a
project back from there. This crate holds what the application decides; a window
and a network around it do what it says.

- `src/` is the library. Every function states what it returns or changes, and
  Verus proves it. What holds of the whole is stated as public proof functions:
  that an existing project is never lost to a restore, that a restore that fails
  removes what it staged, that a save during a backup is not passed over, that a
  refresh keeps what is linked, that the orders of the list are total.
- `app/` is the application: GPUI windows, the disk, and the providers.
- `tests/` runs the library on concrete values.

## How the library is laid out

| Modules | What they decide |
| --- | --- |
| `manager`, `session`, `labels`, `transfers`, `recovery` | what the library of projects becomes when something happens |
| `backup`, `retention`, `automatic_backup` | how a backup runs, what it keeps, and when it starts by itself |
| `restore`, `restore_run`, `publish`, `assets`, `names` | where a restored project goes, and how it takes the place of another |
| `catalog`, `remote`, `library`, `project`, `detail` | providers, their projects, and those on this computer |
| `screens`, `panels`, `tree`, `inspection`, `navigation`, `notice` | what windows show |
| `state`, `options`, `appearance`, `filters`, `format`, `status` | settings and values |
| `text`, `text_map`, `path`, `order`, `moment`, `sizes`, `json` | the ground they stand on |

Work outside the process is described by values: a step names what is to be done
(open a provider, move a folder, ask for an answer), and the next step takes what
came of it.
