# moto_dashboard

The display logic of a motorcycle dashboard on a 536 by 240 pixel panel: a
speed gauge on the left, a motor gauge on the right and a status screen with
the blinker arrows and the headlight symbol between them.

`src/` is a Verus library. It plans every frame as integer geometry — the
shapes, texts and styles to draw into a gauge buffer or the status buffer, and
where each buffer goes on the panel — and it acts on the dashboard's messages.
Its contracts state each plan exactly.

- `geometry`, `color`, `draw`: points and rectangles, 5-6-5 colours and
  styles, drawing steps and frames.
- `numeric`, `text`: decimal renderings and the fixed-capacity texts of the
  gauges.
- `gauge`, `status_screen`, `dashboard`: the gauge dial and needle, the status
  screen, the drawing context and the dashboard's state and messages.

`app/` is the program around it: the ring trigonometry (floating point), the
embedded-graphics renderer, the panel and the embassy tasks.
