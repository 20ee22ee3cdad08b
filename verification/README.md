# gpui_net_shell

The component layer of a GPUI shell that a managed host drives through a C
ABI. The managed side builds an arena of nodes, operations and parent/child
edges; the shell looks each node's component up in a frozen catalog, checks
the constructor and method arguments against that component's rules, records
what they mean, and hands the recorded calls to the component's materializer.

The library in `src/` is verified with Verus:

- `abi` — the wire records of the arena (addresses carried as integers).
- `text`, `number` — string helpers, and binary64 numbers carried as their
  bits, with the IEEE-754 fields read out in specifications.
- `rules` — call arguments, recorded payloads, and the rules that turn one
  into the other, each stated as a spec function over the arguments.
- `registry` — component descriptors, the registry that accepts each kind once
  and keeps registration order, and the frozen catalog indexed by wire id.
- `calls` — the recorded method calls of an element and how a component reads
  them (the last call of a method wins, a first call stays, items keep call
  order).
- `children` — which named children a parent accepts, and which it consumes
  as entries rather than content.
- `components` — one module per component or family: its descriptor, proved
  equal to a stated table of constructors and methods, its registration, and
  the configuration it derives from its calls. `components::register` and
  `components::catalog` register the built-in catalog in wire id order.
  `components::canvas` also decides how a canvas hit region answers pointer
  events (which press arms a click, and which callbacks run, in which order);
  several components also check the payload they are built from and the
  children they accept.
- `paint_path` — the words and commands of the `PaintPath` language, with the
  operands kept as text, and the unit a length word is written in.

A few rules depend on an outside parser (colors, keystrokes, dash patterns):
`parser` and `text_to_parse` name the parser and the text it must judge, and
`record_parsed` / `payload_parsed` record the call from the parser's verdict.

`app/` holds what needs GPUI itself: the `#[repr(C)]` records with raw
pointers and function pointers, the color, keystroke and floating-point
parsers consulted while recording, the numbers of lengths and path operands,
the host calls that region actions name, and GPUI builders for a few of the
verified configurations (slider, combobox, description list, editor settings).
The component materializers, which need GPUI's element tree and the host
context, are not part of it.
