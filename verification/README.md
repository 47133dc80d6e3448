# tpm2-rs

A key store on a TPM 2.0, reached through the TPM Base Services of Windows,
with key metadata kept in SQLite.

`src/` is the library, verified with Verus: the wire formats of the TPM
commands and responses, the response codes and errors, the session
cryptography (command and response HMACs, KDFa, AES-128-CFB parameter
encryption), the session slots of an operation, the policy codec of the store,
the commands that satisfy a policy in a policy session and the branches a
caller selected for its ORs, the shape of a public area and its RSA modulus,
the decoding and encoding of stored key metadata, the cache of authorization
values and policy branches, and the decisions of the operations that talk to
the TPM in several steps: each is a step function from a state and what the
last command gave to the next state and action (making a key persistent,
provisioning the library's keys, loading a key with its parents, creating and
deleting a key).

`app/` is the part that does I/O: the TBS transport, the SQLite store and the
context that joins them to the library, running the step functions and
performing the actions they name.

`tests/` runs the library on concrete values.
