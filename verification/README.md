# rocket_calculator

A rocket range calculator for *Oxygen Not Included: Spaced Out*, with its rules
proved in Verus.

- `src/models.rs`: engines, tanks, oxidizers, command modules and nosecones, with
  their table entries (heights, burdens, capacities in whole kilograms, engine power).
- `src/calculator.rs`: the checks that decide whether a rocket can fly and which error
  comes first, with the totals of an accepted rocket; amounts are read through
  `Quantity` (integer floor and ceiling), which decides every comparison with a
  whole-kilogram limit exactly. Laws: acceptance exactly when every check passes,
  independence from module order, oxidizer ignored by engines that do not burn it.
- `src/messages.rs`: the texts shown for errors and limiting resources.
- `app/`: the web page (leptos), the parsing of typed-in amounts, and the
  floating-point flight figures (range, speed, limiting resource).
