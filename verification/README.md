# zombienet_configuration

Parachain configuration for test networks, verified with Verus.

- `src/parachain.rs`: `ParachainConfig` and the typestate builder
  `ParachainConfigBuilder` (`Initial` → `WithId` → `WithAtLeastOneCollator`),
  which checks every value, records every refusal in order, and builds only
  when nothing was refused.
- `src/node.rs`, `src/resources.rs`: collators and their resources, with
  builders of the same kind.
- `src/types.rs`, `src/image.rs`, `src/quantity.rs`, `src/text.rs`: the typed
  values and the rules they obey (chain names, commands, image references,
  resource quantities, locations).
- `src/errors.rs`: the errors and their text.
- `src/net.rs`: the calls into the `multiaddr` and `url` parsers.
- `src/laws.rs`: properties that span several calls of a builder.

Every contract is stated over the `View` of each type; the tests under
`tests/` run the compiled library.
