# bambumate

A filament assistant for Bambu Studio: it finds a filament's specifications
(brand pages, a data-sheet catalog, web search and language models), turns
them into Bambu Studio filament profiles, compares and edits profiles, and
turns the defects seen on a print photo into recommended setting changes.

The decisions are a library verified with Verus; the input and output around
them are ordinary Rust.

- `src/` — the verified library.
  - `profile/` — the profile model (`types`), the registry of profiles,
    generation of profile fields from specifications and reading them back
    (`generator`), reading a profile from its JSON text (`reader`),
    inheritance (`inheritance`), `.info` metadata files (`info`), checksums
    (`writer`) and Bambu Studio's configuration (`paths`).
  - `scraper/` — specifications: types and validation, brand adapters, HTML
    and JSON-LD extraction, model prompts and answers, the catalog, the
    search state machines (`search`, `ai_search`), web search, robots.txt and
    request pacing.
  - `mapper/` — the rule engine from detected defects to recommendations.
  - `analyzer/` — vision prompts, defect reports and image payloads.
  - `commands/` — what the front end asks for: profile listings, diffs and
    comparisons, recommendations, setup state, launcher and update checks,
    and the reading of model providers' replies (`models`).
  - `text.rs`, `fixed.rs` — text and fixed-point number helpers with their
    specifications.
- `app/` — the runtime around the library: files, HTTP, SQLite stores,
  model API calls, image decoding and desktop integration.
- `tests/` — tests of the library.

Numbers that are decimals in profiles (temperatures, ratios, lengths) are
held as integers in thousandths.
