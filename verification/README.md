# avm2_namespace

The ActionScript 3 `Namespace` class of the AVM2 virtual machine, verified
with Verus: its instance initializer (`init`) and its `uri` getter
(`get_uri`), with the model of AVM2 values, objects, namespaces and
virtual-machine state that they read and write.

- `src/namespace.rs`: namespaces and their URIs.
- `src/value.rs`: values and objects, and their conversion to a string and
  to an unsigned integer.
- `src/activation.rs`: the virtual machine's state (API versions, the base
  public namespace, the record of unsupported features met) and errors.
- `src/globals.rs`: the native methods, their contracts, and the laws that
  relate them.
- `app/`: what cannot be verified: printing, the method that only panics,
  and reading a number from text, which goes through floating point.
