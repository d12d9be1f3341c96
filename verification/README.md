# collab_cli

The `collab init` wizard as a verified library.

- `src/wizard.rs` — the wizard's state and `WizardState::handle`, whose
  contract is the transition function `after_key` over plain values.
- `src/laws.rs` — what holds across key presses (the state invariant, workers
  only added, undo of typing, and so on), proved over `after_key`.
- `src/text.rs` — Unicode whitespace and trimming, and the `String`/`str`
  operations the text fields use.
- `src/keys.rs`, `src/layout.rs`, `src/screen.rs` — key presses, terminal
  rectangles (split by ratatui's layout solver), and the geometry and text of
  each screen.
- `src/config.rs` — the project configuration the wizard produces.
- `app/main.rs` — the terminal loop: reads keys with crossterm, draws with
  ratatui, calls the library.
