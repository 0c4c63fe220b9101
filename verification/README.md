# golden_gun

The game logic of "The Golden (Water) Gun", a small top-down adventure:
walk into Ben's house, ask his family about the golden gun in the right
order, find its hiding spot, and watch Ben grab it first.

`src/` is the verified library. Every part of the game that decides
something is a plain state machine with a contract:

- `grid`, `tilemap`, `collision`: positions, the two tile maps (their
  layout is stated tile by tile), the collision set built from a map, and
  proofs that the family and the gun's hiding spot can be reached on foot.
- `quest`: the clue chain; proofs that the gun unlocks exactly when the
  family has been talked to in chain order.
- `dialogue`, `interaction`, `player`: the dialogue box, what the interact
  key reaches, and grid movement.
- `transitions`, `cutscene`, `end_screen`: screen fades between scenes,
  the ambush cutscene and restarting.

`app/` is the engine around it: rendering, input, timers and the scene
schedule. It reads the keys, ticks the timers and runs the queries, hands
plain values to the library, and carries out what the library decides.
