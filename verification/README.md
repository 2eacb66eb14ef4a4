# occupier_r

Keeps a set percentage of a machine's memory and disk in use: it holds memory
and disk space in parts of a fixed size, and after each reading of the machine
grows or shrinks the number of parts so that what others use plus what it holds
fills the budget, to within one part. When others' use rises, it gives parts
back.

- `src/` is the verified library (Verus): the target arithmetic (`quota`), the
  memory occupier (`memory`), the storage occupier's step machine (`storage`),
  the settings read from the command line (`param`) and the CPU task's duty
  cycle (`cpu`).
- `app/` is the program around it: the command line, the readings of the
  system, the part files, the CPU tasks and the printed reports.
- `tests/` runs the library on concrete values.
