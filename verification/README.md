# linear_bot

The decisions of a puzzle-hunt chat bot, verified with Verus: teams register
and log in with a bcrypt-hashed password, climb five levels of questions,
pay points for hints and giveaways, and are ranked on a paged leaderboard.

- `src/` is the library. Every command is a state machine (`Step`): it asks
  for one database lookup at a time and ends in a list of writes and replies.
  Each step's contract is its model in `auth`, `game` and `flow`; `laws`
  proves properties that span commands.
- `app/` is the chat bot around it: it carries out the lookups against
  MongoDB, the writes, and the replies through poise/serenity.
