# cleanslate_qa

The verified core of a utility that resets QA workstations to a clean
baseline: browser caches, temporary files, shell history, platform caches
and logs, the DNS cache and the hosts file.

- `src/` is the library, verified with Verus. It decides which paths a
  clean-up may touch (`engine::exclusions`), where each platform keeps its
  files (`engine::os`, `engine::browser`, `engine::system`,
  `engine::os_specific`), what a dry run measures (`engine::scan`), how one
  clean-up step plans and tallies its removals (`engine::sweep`), how sizes
  in tool output are read (`size`), how network resets, the clipboard and validation
  checks are judged (`engine::network`, `engine::validator`), and how the
  session log is laid out (`logger`). Its laws are public proof functions
  named `law_*`.
- `app/` is the command-line program around it: it reads the environment,
  walks directories, removes files, runs commands, writes the log and
  prints JSON reports (`dry-run`, `cleanup --confirm`, `os-info`).
- `tests/` exercise the library on concrete values.
