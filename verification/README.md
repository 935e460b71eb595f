# kickback_fix

A filter against mouse-wheel kickback (phantom ticks in the opposite
direction, as produced by worn Kailh EN8080 encoders), written in Verus.

- `src/` is the verified library: the streak counter (`streak`), the wheel
  filter and its laws (`catcher`), two phase machines (`machine`,
  `compensator`), synthetic tick data and the injection limiter
  (`synthetic`), the configuration values (`config`) and the console
  decisions (`console`). `hook` holds the event and response types shared by
  the filters, `constants` the constants.
- `app/` is the Windows program around it: the low-level hook, the injector
  thread, the message pump and `config.toml` handling. It hands every event
  to the library and carries out the answer.
- `tests/` runs the library on concrete inputs.
