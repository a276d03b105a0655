# filecopyer

Sorts photos and videos into dated directories (`{YYYY}-{MM}-{DD}` by
default), taking the date from EXIF attributes, the QuickTime/MP4 movie
header, or the file system times.

- `src/` is the verified library: file-name and media-kind rules, EXIF and
  QuickTime date extraction, directory templates, free-name search, the
  state machine that drives a run, and the state of the graphical form.
- `app/` is the program around it: command-line parsing, the file system
  work the state machine asks for, and the egui window.
- `tests/` exercises the library on concrete values, including complete
  runs against a simulated file system.
