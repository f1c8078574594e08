# reactor-sim

A small game about running a nuclear power plant: the operator sets the
reactivity of the core and the water flow through the turbine, sells the power
the turbine makes, keeps temperatures and pressure below their limits, buys
fuel, a stronger turbine or a new one after a breakdown, and listens to
Uranek, the operator's assistant.

## Layout

- `src/` — the rules of the game, verified with Verus. Every continuous
  quantity is a fixed-point integer holding millionths of its unit.
  - `simulation` — plant state, limits, the turbine's power, earnings and
    wear, purchases (refuel, turbine upgrade, buy-back) and the end of a game.
  - `refuel_animation` — the stages of the refuel animation and the lift of
    the control rods.
  - `uranek` — the assistant's blinking, comments and picture.
  - `tutorial` — the tutorial's script, highlights and pictures.
  - `gauges`, `display`, `text` — gauge zones and colours, and the texts of
    the gauges, money, sliders and fuel (fixed-point numbers printed with
    rounding half to even).
  - `game_state`, `buttons`, `audio`, `scene` — screens and pausing, menu and
    refuel buttons, volumes and the hissing of the reactor, scene objects.
- `tests/` — tests of the library on concrete values.
- `app/` — the Bevy program around the library: windows, UI, sound, the 3D
  scene, and the exponential dynamics of the reactor, the turbine's
  temperature and speed, the control settings and the fuel, which run on
  floating point.
