# databend_query

Verified pieces of a query engine, written in Verus.

- `src/user_info.rs`: users, their authentication, quota and option flags.
- `src/calendar.rs`: proleptic Gregorian dates and their day numbers.
- `src/date_deserializer.rs`, `src/values.rs`: collecting date values into a
  column from binary rows, JSON strings and scalar values.
- `src/tls.rs`: building the MySQL handler's TLS configuration from PEM text
  (through rustls-pemfile and rustls).
- `src/infer_filter.rs`: the filter-inference rule and its grouping of
  column-versus-constant comparisons.
- `src/aggregate_meta.rs`: the metadata an aggregation passes along.
- `src/data_mutation.rs`: the decisions of running an update, delete or merge.

`app/` holds what needs serde, enumflags2, chrono or the file system:
stored user records, JSON values, chrono dates and reading the TLS files.
