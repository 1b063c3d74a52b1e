# rosu_pp

The integer logic of osu!standard performance calculation, verified with
Verus: hitresult generation from what is known of a play, score states,
object counting, legacy score simulation, nested score per object, drain
time bookkeeping and the stepping of gradual difficulty calculation.

- `src/` is the verified library. Its modules:
  - `score_state`: hitresults, score states, score origins and the accuracy
    as an exact fraction.
  - `object`: hit objects reduced to what counting and scoring read.
  - `attributes`: object counts and maximum combo.
  - `hitresult_generator`: the generators that ignore accuracy and that
    estimate 300s and 100s from an accuracy target.
  - `performance`, `pp`: completing a play's hitresults into a score state.
  - `legacy_score`, `legacy_score_simulator`: legacy (ScoreV1) scoring.
  - `drain`: drain time without breaks, at once and object by object.
  - `gradual`: gradual difficulty calculation, one object at a time.
- `app/` holds what works on floating point or on the map's data: accuracies
  as `f64`, the accuracy target, the closest-accuracy generator, spinner half
  spins from durations and break periods.
- `tests/` runs the library on concrete plays.
