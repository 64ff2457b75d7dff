# wallblend

Scrapes the wallpaper thumbnails of a search on goodfon.ru, downloads them,
and folds them into one averaged picture, while a terminal interface follows
the worker threads.

- `src/` is the verified library (Verus): the per-pixel running average and
  the pictures it works on (`job::accumulate`), JPEG decoding through the
  `image` crate (`job::decode`), the link extraction through `scraper`
  (`job::parse`), the decisions of the accumulating and collecting workers
  (`job`, `collect`), the broadcaster that passes the pictures on and counts
  the producers' end markers (`job::thread_broadcaster`, over the channels of
  `channel`), the event reports of the workers and their bookkeeping in the
  interface (`sync`, `gui::sync`, `gui::app`), the list selection, key
  handling and the layouts of the bar chart and the picture view (`gui`), and
  the search addresses, how they are dealt out to the workers, and the thread
  count (`cli`).
- `app/` is the program around it: command line, threads, the loops that
  wait on channels, HTTP requests, file saving and the drawing with `tui` and
  `termion`.
- `tests/` runs the library on concrete values.
