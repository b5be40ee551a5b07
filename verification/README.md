# fs-gui-engine-iced

Render-engine core for the FreeSynergy desktop on the iced toolkit.

`src/` is the verified library (Verus): capability metadata, widget and
window descriptors with their event queue, engine context, theme naming,
layer-shell window configuration, corner/side navigation menu state and
layout decisions, inline icon lookup and recolouring, layout helpers and
portal result handling. Every public function that computes or changes
something carries a contract (the engine's `dispatch_event`, `run` and
`shutdown` hooks take `&self` and return nothing), and the laws that relate
several operations are proof functions next to them.

`app/` is the unverified runtime around it: building iced widgets, the
event loop, desktop portals over D-Bus, file and environment access, and
the floating-point colour and size arithmetic.
