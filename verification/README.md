# plugin_panel

The decisions of an editor's plugin panel, verified with Verus.

- `src/status.rs`: the status of a listed plugin and the texts shown for it.
- `src/catalog.rs`: plugin descriptions, listings, the table of installed and
  disabled versions, and the rule that gives each row its status.
- `src/panel.rs`: the answer to pointer events, plugin menus, the rows laid
  out and the placeholder messages.
- `src/description.rs`: where a description too long for its row is cut.
- `src/laws.rs`: properties that hold across these functions.
- `app/lib.rs`: the druid widget that draws the panel and turns pointer
  positions into rows; it holds the floating-point geometry.
