# Miasma

Miasma serves an endless maze of poisoned training data to AI web scrapers:
every page wraps text fetched from a poison source in a plausible HTML
document and links to more such pages.

## Layout

- `src/` is the library, written in Verus and verified:
  - `config` and `cli`: the settings and how the command line arguments give
    them (link prefix normalisation, maximum depth, metrics credentials);
  - `templates`, `templating`, `response_templates`: the HTML documents that
    frame the poison, as sequences of static strings;
  - `poison`: which links a page carries, how the poison is escaped, and the
    order of the parts of a poisoned page;
  - `router`: the decisions of the request handler (429 when saturated,
    gzip, depth, which user agent to count);
  - `metrics` and `logger`: per-user-agent request counts and the pages that
    show them;
  - `routes`: the page built as one string;
  - `report`: the configuration report shown at startup, line by line;
  - `text`: decimal notation and character helpers used throughout.
- `tests/` runs the library on concrete values.
- `app/` is the server around it: argument parsing, the HTTP server, fetching
  the poison, gzip, and the SQLite database.
