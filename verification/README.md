# team_swaps

Records of a team-swapping event kept in SQLite: members, teams, submitted
anime and the claims that teams make on them.

- `src/` is the verified library (Verus). It holds the record types, the SQL
  statements that read and change the records together with the values bound
  to their parameters (`statements`), the grouping of member rows into teams
  (`teams`), the handling of rows that could not be read (`rows`), and the
  RFC 3339 text of claim times (`timestamp`, through chrono).
- `app/` opens the database file, runs those statements with rusqlite, and
  hands the rows back to the library; it also holds the serde copies of the
  record types and the conversion from the chat platform's user type.
- `tests/` checks the library on concrete values, and runs its statements
  against an in-memory SQLite database.
