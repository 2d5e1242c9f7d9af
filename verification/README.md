# metrocity

A terminal screensaver: an animated cyberpunk city skyline (with traffic,
weather, a distro monolith and a time megaboard) that takes over the
terminal and exits on any key press. A cat cafe, a meadow and a sakura
lakeside are drawn by the same library.

## Layout

- `src/` — the library, verified with Verus. Scenes paint into a plain cell
  grid (`buffer::Buffer`, viewed as a map from positions to cells), and
  the drawing functions state which cells they change and how. Draws from
  the seeded random generator (`random`) are named as functions of the
  seed and the draws made before, so the skyline's silhouettes are fixed
  by the seed 12345.
  - `buffer`, `layout`, `style`, `text`: the cell grid, rectangles, colors
    and the small text helpers.
  - `kitty`, `sprite`: the Kitty graphics protocol commands (transmission
    in base64 chunks, placement, deletion), pixel sprites, and a placement
    tracker that sends only what changed.
  - `engine`: the render loop's decisions (pacing, input, time step).
  - `config`, `screensaver`: configuration sections, how the command
    line overrides them and which scene runs (`--scene`, else the city).
  - `scenes::city`: building layout, skyline, street lamps, megaboard,
    vehicles, weather, calendar and distro detection.
  - `scenes::cafe`, `scenes::meadow`, `scenes::sakura`: layouts, the
    components drawn from integers alone, and the Kitty sprite layers (the
    cafe's decor and cats, the meadow's animals) that send their frames
    once and then only the placements that changed.
- `app/` — the program: command line, configuration file, terminal and
  input, and everything animated or blended in floating point (vehicle and
  weather motion, gradients, the sakura tree's growth).
- `tests/` — tests of the library on concrete values.
