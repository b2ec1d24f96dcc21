# grpc_services

The verified core of a small gRPC suite (route guide, chat, greeter) and the
program around it.

- `src/` — the library, verified with Verus:
  - `geometry`: points, rectangles and the rectangle membership test;
  - `route_guide`: feature lookup by point and by rectangle, route summaries
    built point by point, and the note exchange answered per location;
  - `chat`: messages built from send requests and a history bounded by a limit;
  - `hello_world`: the greeter;
  - `client`: random routes, note locations, and the command-line choices;
  - `seq_facts`: lemmas on filtering sequence prefixes.
- `tests/` — tests of the library on concrete values.
- `app/` — the program: command line, JSON feature database, haversine
  distances, request logging, the gRPC health service, and the asynchronous
  drivers that feed the library's state machines.
