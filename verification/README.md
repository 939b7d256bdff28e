# immich_exif_tool

Compares the metadata of a local photo library (as exiftool reads it) with
the metadata an Immich server keeps, and plans the fixes to apply to the
local files: date and time, GPS position, description and file extension.

The library in `src/` is verified with Verus:

- `civil` models jiff's calendar values as plain integers and holds the calls
  into jiff, each with the contract it is trusted to meet.
- `text` states std's string and path operations over character sequences and
  holds small verified string functions (byte-wise order, sorting, slashes).
- `keyed` is an insertion-ordered map keyed by strings.
- `exif` reads exiftool's answers: EXIF date-times, the command lines of a
  batch and the line that ends an answer.
- `immich` reads the pull file: live-photo resolution and Immich's dates,
  whose offset comes from the time zone field.
- `commands::plan` and `plan_file` assess each field and merge the results of
  the worker threads into the plan; `plan` and `pull` hold the
  folder-by-folder planner, which writes the fixes file, and puller.

`app/` is the command-line program around it: argument parsing, the exiftool
process, HTTP requests to Immich, JSON files and terminal output.
