# ghrr

Collects the stargazers, subscribers and contributors of a GitHub repository
and writes their enriched profiles (company, organizations, email, location,
follower and repository counts) as CSV rows.

- `src/` is the verified library (Verus): user records and their
  normalisation, credential validation, error texts, request routes and
  failure classification, the rate-limit wait, CSV rows and their encoding,
  the output and progress decisions. Calls into `csv`, `chrono` and
  `octocrab` that only compute stand behind small trusted wrappers.
- `app/` is the command-line program: argument parsing (`clap`), the
  environment, the network (`octocrab`, `tokio`), files and the terminal
  (`indicatif`).
- `tests/` exercise the library with concrete values.

Usage: `GITHUB_USER=... GITHUB_TOKEN=... ghrr -o <organization> -r <repository> [-f <file>|-]`.
