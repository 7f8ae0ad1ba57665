# gestion_de_eventos

Events paid in an SPL token: an authority creates an event with a ticket
price, a presale end and a closing time; sponsors pay into the event's
treasury and receive as many of the event's own tokens; buyers pay for
tickets into the event's gain vault, at half price during the presale;
once the closing time is reached, sponsorships and purchases are refused; the
authority withdraws from the treasury; sales are closed by the authority at
any time, or by anyone once the closing time is reached.

- `src/` is the verified library. Each instruction checks the plain
  values of its accounts, updates the event account and returns the token
  operations it asks for (`cuentas::TokenInstruction`).
  - `collections/evento.rs`: the event account.
  - `cuentas.rs`: addresses, token accounts, the clock, the token operations
    and the seeds the event signs with.
  - `instrucciones/`: one module per instruction, with its accounts, its
    checks and its handler.
  - `gestion_de_eventos.rs`: the instructions as the program exposes them.
  - `leyes.rs`: properties that relate the instructions to one another.
  - `utils/errors.rs`: the program's errors and their numbers.
- `app/` is the on-chain program written with Anchor: the accounts, the
  entry points, and the token transfers and mints carried out by CPI.
- `tests/` runs the library on concrete events.
