# auravibe

The verified core of a UI kit for iced.

- `src/` is the library, verified with Verus: the page router (history,
  page lifecycles, generation-stamped messages, snapshot hand-overs), the
  bounded back/forward history, motion keys, texture-cache invalidation and
  the redraw observer, and the plain decisions of the widgets (type scale,
  sidebar axis and toggle direction, autoplay timing, rebuild counting).
  Each public function states what it returns or changes; the properties
  that span several calls are proof functions named `law_*`.
- `tests/` runs the library on concrete values.
- `app/` is the iced side: type-erased pages with their tasks,
  subscriptions and views, the shared-value registry, the floating-point
  theme tokens and geometry, and the process-wide and environment
  helpers. It decides nothing the library could decide.
