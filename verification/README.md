# canvas_syncer

A syncer for Canvas LMS course files. It lists the courses of an account, keeps those that the
term and course filters let through, walks their folders, assignments, module pages and files,
creates a directory tree for them, and downloads missing files or updates outdated ones.

- `src/` is the library, verified with Verus: JSON records (`json`, `course`, `folder`,
  `assignment`, `module`, `item`, `page`, `course_file`), filters and size rules (`filter`,
  `util`), directory names, course selection and transfer planning (`account`), request
  addresses and paging decisions (`download`), settings (`config`), and the text helpers they
  share (`text`).
- `app/` is the program around it: command line, configuration file, HTTP requests, progress
  bars and file system work. It also holds `size_in_bytes`, the floating-point conversion of a
  size amount into bytes that the size-rule functions of the library take as an argument.
- `tests/` exercises the library on concrete values.
