# vortex

A Windows 11 tuning tool (power plan, GPU scheduling, paging file, working-set
trimming, network settings) whose decisions live in a library verified with Verus.

- `src/` — the verified library: the PowerShell scripts and how their output is
  judged (`scripts`, `powershell`), the backup and the restore that undoes every
  written value (`backup`, `keys`), the registry values and their byte encoding
  (`gpu_priority`, `encoding`), which processes are trimmed (`trim`), the
  daemon's decision (`protect`), the hardware profile (`profile`), the order and
  reports of `apply` (`apply`), command-line modes (`cli`), the dashboard's plan
  and GPU scheduling labels (`dashboard`), the ordering of telemetry samples
  (`telemetry`) and text utilities (`text`).
- `app/` — the program: reads the system through `sysinfo`, runs PowerShell and
  `reg`, calls the Win32 API through `windows`, and prints.
- `tests/` — tests of the library on concrete values.
