# optd-cost-model

Building blocks of a query optimizer's cost model, verified with Verus.

- `src/common/properties/attr_ref.rs`: references to base-table attributes and the
  semantic correlation between them, i.e. which attributes are known to hold equal
  values because the query equates them. Its model is a partition of the attributes
  into classes plus the recorded equality predicates; the proofs there show that the
  classes are exactly the equivalence closure of the predicates, and that a union does
  not depend on the order of its operands.
- `src/utils.rs`: disjoint sets of attributes (labelled members), and decimal text.
- `src/common/predicates/`, `src/common/nodes.rs`: predicate trees and their typed
  views (binary and unary operations, casts, `LIKE`, `IN` lists, ...), and the text of a
  tree as a list of pieces, where only Arrow data types and floats are left for the
  caller to write.
- `src/common/values.rs`: constants held by predicates and their conversions, including
  the day count of a date; floats compare as `OrderedFloat` compares them, by an order
  key of their bit pattern.
- `src/common/types.rs`, `src/common/properties/{mod,schema}.rs`: ids, attributes and
  schemas.
- `src/dbms.rs`, `src/cardbench.rs`: SQL unescaping (proved to undo escaping) and the selection of
  single-attribute statistics used by the cardinality benchmark.
- `src/tpch/`: the memo groups of the plans of TPC-H queries 6 to 9 (schemas, attribute
  references and correlations), each memo a map from group id to group. Each memo is
  stated as a spec value, and the function that builds it is proved to produce exactly
  that value. Tables are named by their TPC-H names.
- `app/`: serde copies of the data types, the formatting that reads floats or Arrow's
  `Debug`, and the TPC-H memos as maps keyed by group id.

`tests/` exercise the library on concrete values.
