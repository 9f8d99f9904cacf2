# log_scrapper

Collection of journal entries from a fleet of nodes.

- `src/` is the library, verified with Verus:
  - `scrapper`: the node scraper. `format_url` is where a node is asked,
    from the cursor it last ended on; `handle_response` records that cursor
    and labels every entry with its node; `scrape_step` runs a round one
    request at a time. `scrapper_laws` states what holds across these.
  - `log_scraper`: the scraper that reads groups of nodes, with its own
    addresses and labels.
  - `json`, `assoc`, `cursors`: JSON values, keyed lists read as maps, and
    the cursor store.
  - `config`, `ic_node`, `config_watcher`: settings, nodes, and keeping the
    nodes in step with the configuration file.
  - `logger`, `log_types`: the fake log source that serves made-up entries.
  - `file_watcher`: reloading the log shipper when its configuration is
    written.
- `app/` holds the programs: environment, files, HTTP, timers, and JSON
  text. Run it with `log_scrapper`, `log_scraper`, `logger` or
  `file_watcher` as its first argument.
- `tests/` runs the library on concrete values.
