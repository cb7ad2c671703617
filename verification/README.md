# group_core

The core of a study-group service: users create groups, join them (directly
for public groups, after the owner's approval for private ones), leave them,
and owners approve, remove and hand groups over. Membership changes are
queued as events and carried out by a background worker, which keeps each
group's member count and notifies the people concerned.

- `src/` is the verified library: the records and events, the storage keys,
  the error model and its HTTP answers, the pagination cursor, the decisions
  of every request, and the plan the worker carries out for each event, with
  the proof that, for every event the request handlers emit for a group, the
  change the worker makes to the member count equals the change in the
  number of the group's active members, and that a new group starts with a
  count equal to its one active member.
- `tests/` runs the library on concrete cases.
- `app/` is the service around it: the HTTP handlers, the DynamoDB and SQS
  calls, the serde forms of the records, and the Lambda entry point.
