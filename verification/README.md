# reservas

A reservation processor for flights and flight-plus-hotel packages, read one
per line as `origin destination airline hotel` (a hotel of `-` means a flight
alone), with statistics of the most requested routes and of the mean
processing time.

- `src/` is the verified library (Verus): line splitting and reserve parsing
  (`text`, `reserve_line`), route counting (`route_counter`), the ranking of
  the most requested routes (`ranking`), processing-time averages (`timing`),
  the simulated web services' draws and the retry decision (`web_service`),
  and the models of the three ways of running reserves:
  `reserve_controller` (one semaphore for all airlines),
  `airline_semaphores` (one semaphore per airline) and `actors` (actors).
- `app/` runs them: threads, semaphores, files, sleeps, and an actix-web
  server for the actor version (`reservas <file>`,
  `reservas --shared-semaphore <file>`, `reservas --serve`).
- `tests/` exercises the library on concrete values.
