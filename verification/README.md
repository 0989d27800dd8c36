# t3rn_circuit

Verified core of the t3rn circuit runtime pieces: the execution-delivery
pallet's call logic, the 3VM primitives, the Solidity precompile modifier
check, balance decimal conversion, the runtime's EVM author and deposit
helpers, and the maintenance-mode mock runtime's hooks and event filters.

- `src/` is the verified library. Calls that read chain storage or call other
  pallets are split at those points: the library decides, the runtime acts.
- `app/` holds the runtime glue: conversions to the Substrate primitive
  types, SCALE-encoded copies of wire types, the pallet account, and drivers
  that run the circuit's calls against a runtime that provides storage,
  events, the XDNS registry and the bridges.
- `tests/` exercises the library on concrete values.
