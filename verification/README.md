# gstplugins

The decision-making parts of a few GStreamer elements, written in Verus and
proved against their contracts.

- `src/pt.rs`: RTP payload types as decimal text. `parse_pt` reads a key the
  way `str::parse::<u8>` does, `pt_to_string` writes one; reading back what
  was written gives the same payload type.
- `src/pt_map.rs`: the payload-type map of an RTP session (payload type to
  caps), how the fields of a structure are read into it, how it is listed,
  and the laws that tie the two together.
- `src/session.rs`: the RTP session object, which replaces and reads its
  session's map (`set_pt_map`, `pt_map`).
- `src/sink.rs`: the state of the GTK 4 paintable sink: handing out the
  paintable, refusing to go to READY without one, keeping negotiated video
  info, queueing frames for the main thread. `ThreadBound` wraps
  `fragile::Fragile` and records the value it holds.
- `src/element.rs`: what the elements declare: properties, signals,
  metadata, pad templates.
- `app/`: the GObject/GStreamer glue (locking, element classes, conversions
  between GStreamer values and the library's plain values).
