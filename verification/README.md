# selfci

A local continuous-integration runner and merge queue for Git and Jujutsu. What
it decides is verified with Verus.

`src/` is the library. It holds every rule of the program: how revisions are
resolved and exported, how a candidate is integrated with its base, checked and
published, how jobs and steps are counted, how the daemon is found, started,
asked and stopped, and what is printed. Each function states what it returns for
every input. Procedures that run commands are functions of what has happened so
far: they say what to do next, and whoever drives them does it, notes what came
of it and asks again.

`app/` is the program around the library. It parses the command line, reads and
writes files and sockets, runs commands and threads, and does nothing that it was
not told to do.

`tests/` runs the library on concrete values, and some of its procedures against
a real Git.

What the library promises as a whole stands in `src/` as proof functions whose
names begin with `law_`. Among them:

- what is published is exactly what was checked, on exactly the base that it was
  checked against (`run.rs`, `publish.rs`);
- the command of a check is the base's, and jobs run only on trees that hold what
  was exported (`candidate_check.rs`);
- a test integration moves no branch and no bookmark (`test_merge.rs`,
  `jj_merge.rs`);
- a check passes if and only if every job that it started succeeded (`check.rs`);
- a daemon's state is removed only once its process is known to be gone
  (`stop.rs`).

What is believed without proof: a few functions of `duct`, `humantime`,
`comfy_table` and the standard library, each in a small function whose comment
says what is claimed of it.
