# lrnscraper

A web scraper driven by a JSON configuration (`lrnscraper_config.json`): each
website names the pages to fetch, how to pick content out of them (`html-tag`,
`css-class` or `id`, with a target) and the file under `data/` that receives
the content, as lines of text (`.txt`) or as a CSV file (`.csv`).

- `src/` is the verified library (Verus): the command line (`cli`), the
  configuration and the jobs of a run (`run`), the extraction of text from a
  page with `tl` (`extract`), the save plans (`save_content`), the counter
  protocol of the worker pool (`thread_pool`) and string helpers (`text`,
  `utils`).
- `app/` is the program around it: argument reading, the headless browser,
  file reads and writes, terminal prompts, logging and the worker threads.
- `tests/` runs the library on concrete inputs.
