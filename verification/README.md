# node_diagnostics

Diagnostics for a weighing dispenser: weight and load-cell trials on a scale,
and a closed-loop dispense that feeds material off the scale with a motor.

- `src/` is the verified library: recorded series (`data`), the error type
  (`error`), trial settings, the sampling schedule shared by both trials and
  the load-cell recording (`trial`), and the decision logic of a dispense as a
  state machine with its laws (`dispenser`).
- `app/` drives the hardware: it reads the scale, moves the motor, sleeps,
  holds the floating-point low-pass filter and weight arithmetic, and carries
  the serde forms of the library's types.
