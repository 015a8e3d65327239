# winui_reactor

The decision logic of a declarative WinUI widget layer, verified with Verus.

The native backend of such a layer spends most of its lines calling the
platform; what it decides between those calls is gathered here as plain
functions and small state machines with contracts:

- `widget`, `content_dialog`, `flyout`, `number_box`, `scroll_viewer`: the
  widget descriptions and their builders.
- `rich_text`: equality of styled runs and the minimal update plan that
  turns the inlines a text block shows into new ones, with the laws that
  the plan reaches the new content and leaves the common prefix alone.
- `dialog`: the show / close-animation / hide protocol of content dialogs.
- `scroll_intent`, `templated`: tail following, scroll requests and the
  item source of virtualized lists.
- `containers`, `slots`, `prop_receiver`, `universal`, `kind_props`, `events`,
  `revokers`, `handlers`, `button`, `text_input`, `animation`, `platform`,
  `visual_tree`: how children, element slots, shared and per-kind
  properties, events and the revokers that keep them attached, pointer and
  drag handlers, button content, bound text, animations and platform
  values are routed, and how a list's scroll viewer is found.
- `prop_route`: the order in which a property set reaches its handler.
- `backend`, `books`: bookkeeping kept between backend calls (ids, deferred
  flyout requests, elevation, rich text, resource keys, and all books
  together for destroying a control), on `rustc_hash` tables whose methods
  are given contracts in `tables`.

`app/` holds the floating-point geometry around the library (scroll
offsets, thresholds, font sizes), which Verus does not reason about.
