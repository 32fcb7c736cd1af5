# rusty_win32

A Windows (Win32) system-interface library for a shell: errors, processes
and jobs, handles and waits, paths and command resolution, files, pipes,
sockets, the registry, security descriptors, services, volumes, time and
directory-change notifications.

- `src/` is the library, verified with Verus: every encoding, decoder and
  decision rule the Win32 calls need, with contracts over mathematical
  models (`Seq`, `int`, views) and proofs of the laws that tie them
  together (round trips of environment blocks, socket addresses, job
  limits, registry strings, UTF-16 text and tick counts).
- `app/` makes the `kernel32`/`advapi32`/`ws2_32` calls themselves and
  hands what they report to the library.
- `tests/` runs the library on concrete values.
