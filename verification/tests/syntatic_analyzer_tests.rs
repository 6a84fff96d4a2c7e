use compiler_frontend::syntatic_analyzer::errors::{AnalysisError, Arity, Construct, Role};
use compiler_frontend::syntatic_analyzer::nonterminals;
use compiler_frontend::syntatic_analyzer::nonterminals::{Kind, Object, Type};
use compiler_frontend::syntatic_analyzer::tables::GrammarTables;
use compiler_frontend::syntatic_analyzer::{analyze, StateMachine};

/// The parsing tables of an LALR(1) automaton for the grammar. The action
/// table has one row for each of its states and is given by its entries
/// that are not 0, each as state, column and entry.
fn tables() -> GrammarTables {
    let entries: Vec<(usize, usize, i32)> = vec![
        (0, 3, 2), (0, 4, 3), (0, 5, 4), (0, 14, 5), (0, 29, 1), (0, 44, 6), (0, 52, 7),
        (2, 44, -3), (2, 52, -3), (2, 85, -3), (3, 44, -4), (3, 52, -4), (3, 85, -4), (4, 44, -5),
        (4, 52, -5), (4, 85, -5), (5, 3, 170), (5, 4, 3), (5, 5, 4), (5, 44, 6), (5, 52, 7),
        (5, 85, -1), (6, 11, 40), (6, 84, 9), (7, 11, 8), (7, 84, 9), (8, 58, 10), (9, 55, -71),
        (9, 57, -71), (9, 58, -71), (9, 63, -71), (10, 12, 11), (10, 33, 12), (10, 36, 13),
        (10, 37, 14), (10, 39, 15), (10, 46, 17), (10, 49, 18), (10, 50, 19), (10, 84, 16),
        (11, 44, -10), (11, 52, -10), (11, 56, -10), (11, 57, -10), (11, 61, -10), (11, 62, -10),
        (11, 64, -10), (11, 85, -10), (12, 44, -13), (12, 52, -13), (12, 85, -13), (13, 59, 34),
        (14, 44, -8), (14, 52, -8), (14, 56, -8), (14, 57, -8), (14, 61, -8), (14, 62, -8),
        (14, 64, -8), (14, 85, -8), (15, 44, -7), (15, 52, -7), (15, 56, -7), (15, 57, -7),
        (15, 61, -7), (15, 62, -7), (15, 64, -7), (15, 85, -7), (16, 44, -72), (16, 52, -72),
        (16, 56, -72), (16, 57, -72), (16, 58, -72), (16, 59, -72), (16, 60, -72), (16, 61, -72),
        (16, 62, -72), (16, 63, -72), (16, 64, -72), (16, 65, -72), (16, 66, -72), (16, 67, -72),
        (16, 68, -72), (16, 69, -72), (16, 70, -72), (16, 71, -72), (16, 72, -72), (16, 73, -72),
        (16, 74, -72), (16, 75, -72), (16, 76, -72), (16, 77, -72), (16, 78, -72), (16, 79, -72),
        (16, 85, -72), (17, 44, -6), (17, 52, -6), (17, 56, -6), (17, 57, -6), (17, 61, -6),
        (17, 62, -6), (17, 64, -6), (17, 85, -6), (18, 44, -9), (18, 52, -9), (18, 56, -9),
        (18, 57, -9), (18, 61, -9), (18, 62, -9), (18, 64, -9), (18, 85, -9), (19, 26, 20),
        (19, 61, -79), (20, 61, 21), (21, 2, 22), (21, 11, 23), (21, 17, 24), (21, 84, 9),
        (22, 56, 30), (22, 62, 29), (23, 55, -26), (23, 57, -26), (24, 55, 25), (24, 57, 26),
        (25, 12, 11), (25, 33, 28), (25, 37, 14), (25, 39, 15), (25, 46, 17), (25, 49, 18),
        (25, 84, 16), (26, 11, 27), (26, 84, 9), (27, 55, -25), (27, 57, -25), (28, 56, -15),
        (28, 62, -15), (29, 44, -12), (29, 52, -12), (29, 85, -12), (30, 11, 23), (30, 17, 31),
        (30, 84, 9), (31, 55, 32), (31, 57, 26), (32, 12, 11), (32, 33, 33), (32, 37, 14),
        (32, 39, 15), (32, 46, 17), (32, 49, 18), (32, 84, 16), (33, 56, -14), (33, 62, -14),
        (34, 28, 35), (34, 82, 36), (35, 60, 37), (36, 56, -78), (36, 57, -78), (36, 60, -78),
        (36, 64, -78), (36, 65, -78), (36, 66, -78), (36, 67, -78), (36, 68, -78), (36, 69, -78),
        (36, 70, -78), (36, 71, -78), (36, 72, -78), (36, 73, -78), (36, 75, -78), (36, 77, -78),
        (36, 78, -78), (37, 47, 38), (38, 12, 11), (38, 33, 39), (38, 37, 14), (38, 39, 15),
        (38, 46, 17), (38, 49, 18), (38, 84, 16), (39, 44, -11), (39, 52, -11), (39, 85, -11),
        (40, 27, 41), (40, 63, -80), (41, 63, 42), (42, 11, 43), (42, 18, 44), (42, 84, 9),
        (43, 55, 168), (44, 57, 45), (44, 64, 46), (45, 11, 165), (45, 84, 9), (46, 55, 47),
        (47, 12, 11), (47, 33, 48), (47, 37, 14), (47, 39, 15), (47, 46, 17), (47, 49, 18),
        (47, 84, 16), (48, 23, 49), (48, 61, -81), (49, 0, 50), (49, 61, 51), (50, 44, -16),
        (50, 52, -16), (50, 85, -16), (51, 6, 52), (51, 15, 53), (51, 53, 54), (52, 38, -21),
        (52, 40, -21), (52, 41, -21), (52, 45, -21), (52, 53, -21), (52, 54, -21), (52, 61, -21),
        (52, 84, -21), (53, 6, 59), (53, 12, 60), (53, 19, 61), (53, 20, 62), (53, 26, 63),
        (53, 31, 64), (53, 38, 65), (53, 40, 66), (53, 41, 67), (53, 45, 68), (53, 53, 54),
        (53, 54, 69), (53, 61, -79), (53, 84, 16), (54, 11, 23), (54, 17, 55), (54, 84, 9),
        (55, 55, 56), (55, 57, 26), (56, 12, 11), (56, 33, 57), (56, 37, 14), (56, 39, 15),
        (56, 46, 17), (56, 49, 18), (56, 84, 16), (57, 56, 58), (58, 38, -24), (58, 40, -24),
        (58, 41, -24), (58, 45, -24), (58, 53, -24), (58, 54, -24), (58, 61, -24), (58, 84, -24),
        (59, 38, -20), (59, 40, -20), (59, 41, -20), (59, 45, -20), (59, 53, -20), (59, 54, -20),
        (59, 61, -20), (59, 84, -20), (60, 56, -70), (60, 57, -70), (60, 58, -70), (60, 59, -70),
        (60, 60, -70), (60, 64, -70), (60, 65, -70), (60, 66, -70), (60, 67, -70), (60, 68, -70),
        (60, 69, -70), (60, 70, -70), (60, 71, -70), (60, 72, -70), (60, 73, -70), (60, 75, -70),
        (60, 77, -70), (60, 78, -70), (60, 79, -70), (61, 12, 60), (61, 20, 62), (61, 26, 63),
        (61, 31, 160), (61, 38, 65), (61, 40, 66), (61, 41, 67), (61, 45, 68), (61, 54, 69),
        (61, 61, -79), (61, 62, 161), (61, 84, 16), (62, 58, 162), (62, 59, 95), (62, 79, 94),
        (63, 0, 159), (63, 61, 51), (64, 38, -23), (64, 40, -23), (64, 41, -23), (64, 45, -23),
        (64, 54, -23), (64, 61, -23), (64, 62, -23), (64, 84, -23), (65, 56, 158), (66, 56, 157),
        (67, 25, 150), (67, 38, -85), (67, 40, -85), (67, 41, -85), (67, 45, -85), (67, 54, -85),
        (67, 61, -85), (67, 84, -85), (68, 63, 142), (69, 25, 70), (69, 63, -85), (70, 63, 71),
        (71, 1, 72), (71, 7, 73), (71, 8, 74), (71, 9, 75), (71, 12, 76), (71, 13, 77),
        (71, 20, 78), (71, 28, 79), (71, 30, 80), (71, 32, 81), (71, 34, 82), (71, 35, 83),
        (71, 43, 85), (71, 51, 92), (71, 63, 86), (71, 74, 90), (71, 75, 87), (71, 76, 88),
        (71, 80, 89), (71, 81, 84), (71, 82, 36), (71, 83, 91), (71, 84, 16), (72, 56, -63),
        (72, 57, -63), (72, 60, -63), (72, 64, -63), (72, 65, -63), (72, 66, -63), (72, 67, -63),
        (72, 68, -63), (72, 69, -63), (72, 70, -63), (72, 71, -63), (72, 72, -63), (72, 73, -63),
        (72, 75, -63), (72, 77, -63), (72, 78, -63), (73, 64, 139), (73, 65, 97), (73, 66, 98),
        (74, 56, -50), (74, 57, -50), (74, 60, -50), (74, 64, -50), (74, 65, -50), (74, 66, -50),
        (74, 67, -50), (74, 68, -50), (74, 69, -50), (74, 70, -50), (74, 71, -50), (74, 72, -50),
        (74, 73, -50), (74, 75, -50), (74, 77, -50), (74, 78, -50), (75, 56, -62), (75, 57, -62),
        (75, 60, -62), (75, 64, -62), (75, 65, -62), (75, 66, -62), (75, 67, -62), (75, 68, -62),
        (75, 69, -62), (75, 70, -62), (75, 71, -62), (75, 72, -62), (75, 73, -62), (75, 75, -62),
        (75, 77, -62), (75, 78, -62), (76, 21, 131), (76, 56, -70), (76, 57, -70), (76, 59, -70),
        (76, 60, -70), (76, 63, -82), (76, 64, -70), (76, 65, -70), (76, 66, -70), (76, 67, -70),
        (76, 68, -70), (76, 69, -70), (76, 70, -70), (76, 71, -70), (76, 72, -70), (76, 73, -70),
        (76, 74, -70), (76, 75, -70), (76, 76, -70), (76, 77, -70), (76, 78, -70), (76, 79, -70),
        (77, 56, -37), (77, 57, -37), (77, 60, -37), (77, 64, -37), (77, 65, -37), (77, 66, -37),
        (77, 67, 105), (77, 68, 103), (77, 69, 104), (77, 70, 102), (77, 71, 106), (77, 72, 101),
        (78, 56, -51), (78, 57, -51), (78, 59, 95), (78, 60, -51), (78, 64, -51), (78, 65, -51),
        (78, 66, -51), (78, 67, -51), (78, 68, -51), (78, 69, -51), (78, 70, -51), (78, 71, -51),
        (78, 72, -51), (78, 73, -51), (78, 74, 130), (78, 75, -51), (78, 76, 129), (78, 77, -51),
        (78, 78, -51), (78, 79, 94), (79, 56, -65), (79, 57, -65), (79, 60, -65), (79, 64, -65),
        (79, 65, -65), (79, 66, -65), (79, 67, -65), (79, 68, -65), (79, 69, -65), (79, 70, -65),
        (79, 71, -65), (79, 72, -65), (79, 73, -65), (79, 75, -65), (79, 77, -65), (79, 78, -65),
        (80, 56, -44), (80, 57, -44), (80, 60, -44), (80, 64, -44), (80, 65, -44), (80, 66, -44),
        (80, 67, -44), (80, 68, -44), (80, 69, -44), (80, 70, -44), (80, 71, -44), (80, 72, -44),
        (80, 73, 109), (80, 75, 108), (81, 56, -64), (81, 57, -64), (81, 60, -64), (81, 64, -64),
        (81, 65, -64), (81, 66, -64), (81, 67, -64), (81, 68, -64), (81, 69, -64), (81, 70, -64),
        (81, 71, -64), (81, 72, -64), (81, 73, -64), (81, 75, -64), (81, 77, -64), (81, 78, -64),
        (82, 56, -61), (82, 57, -61), (82, 60, -61), (82, 64, -61), (82, 65, -61), (82, 66, -61),
        (82, 67, -61), (82, 68, -61), (82, 69, -61), (82, 70, -61), (82, 71, -61), (82, 72, -61),
        (82, 73, -61), (82, 75, -61), (82, 77, -61), (82, 78, -61), (83, 56, -47), (83, 57, -47),
        (83, 60, -47), (83, 64, -47), (83, 65, -47), (83, 66, -47), (83, 67, -47), (83, 68, -47),
        (83, 69, -47), (83, 70, -47), (83, 71, -47), (83, 72, -47), (83, 73, -47), (83, 75, -47),
        (83, 77, 112), (83, 78, 111), (84, 56, -76), (84, 57, -76), (84, 60, -76), (84, 64, -76),
        (84, 65, -76), (84, 66, -76), (84, 67, -76), (84, 68, -76), (84, 69, -76), (84, 70, -76),
        (84, 71, -76), (84, 72, -76), (84, 73, -76), (84, 75, -76), (84, 77, -76), (84, 78, -76),
        (85, 56, -75), (85, 57, -75), (85, 60, -75), (85, 64, -75), (85, 65, -75), (85, 66, -75),
        (85, 67, -75), (85, 68, -75), (85, 69, -75), (85, 70, -75), (85, 71, -75), (85, 72, -75),
        (85, 73, -75), (85, 75, -75), (85, 77, -75), (85, 78, -75), (86, 1, 72), (86, 7, 127),
        (86, 8, 74), (86, 9, 75), (86, 12, 76), (86, 13, 77), (86, 20, 78), (86, 28, 79),
        (86, 30, 80), (86, 32, 81), (86, 34, 82), (86, 35, 83), (86, 43, 85), (86, 51, 92),
        (86, 63, 86), (86, 74, 90), (86, 75, 87), (86, 76, 88), (86, 80, 89), (86, 81, 84),
        (86, 82, 36), (86, 83, 91), (86, 84, 16), (87, 1, 72), (87, 8, 126), (87, 9, 75),
        (87, 12, 76), (87, 20, 78), (87, 28, 79), (87, 32, 81), (87, 34, 82), (87, 43, 85),
        (87, 51, 92), (87, 63, 86), (87, 74, 90), (87, 75, 87), (87, 76, 88), (87, 80, 89),
        (87, 81, 84), (87, 82, 36), (87, 83, 91), (87, 84, 16), (88, 12, 60), (88, 20, 125),
        (88, 84, 16), (89, 1, 72), (89, 8, 124), (89, 9, 75), (89, 12, 76), (89, 20, 78),
        (89, 28, 79), (89, 32, 81), (89, 34, 82), (89, 43, 85), (89, 51, 92), (89, 63, 86),
        (89, 74, 90), (89, 75, 87), (89, 76, 88), (89, 80, 89), (89, 81, 84), (89, 82, 36),
        (89, 83, 91), (89, 84, 16), (90, 12, 60), (90, 20, 93), (90, 84, 16), (91, 56, -77),
        (91, 57, -77), (91, 60, -77), (91, 64, -77), (91, 65, -77), (91, 66, -77), (91, 67, -77),
        (91, 68, -77), (91, 69, -77), (91, 70, -77), (91, 71, -77), (91, 72, -77), (91, 73, -77),
        (91, 75, -77), (91, 77, -77), (91, 78, -77), (92, 56, -74), (92, 57, -74), (92, 60, -74),
        (92, 64, -74), (92, 65, -74), (92, 66, -74), (92, 67, -74), (92, 68, -74), (92, 69, -74),
        (92, 70, -74), (92, 71, -74), (92, 72, -74), (92, 73, -74), (92, 75, -74), (92, 77, -74),
        (92, 78, -74), (93, 56, -52), (93, 57, -52), (93, 59, 95), (93, 60, -52), (93, 64, -52),
        (93, 65, -52), (93, 66, -52), (93, 67, -52), (93, 68, -52), (93, 69, -52), (93, 70, -52),
        (93, 71, -52), (93, 72, -52), (93, 73, -52), (93, 75, -52), (93, 77, -52), (93, 78, -52),
        (93, 79, 94), (94, 10, 122), (94, 84, 123), (95, 1, 72), (95, 7, 96), (95, 8, 74),
        (95, 9, 75), (95, 12, 76), (95, 13, 77), (95, 20, 78), (95, 28, 79), (95, 30, 80),
        (95, 32, 81), (95, 34, 82), (95, 35, 83), (95, 43, 85), (95, 51, 92), (95, 63, 86),
        (95, 74, 90), (95, 75, 87), (95, 76, 88), (95, 80, 89), (95, 81, 84), (95, 82, 36),
        (95, 83, 91), (95, 84, 16), (96, 60, 99), (96, 65, 97), (96, 66, 98), (97, 1, 72),
        (97, 8, 74), (97, 9, 75), (97, 12, 76), (97, 13, 121), (97, 20, 78), (97, 28, 79),
        (97, 30, 80), (97, 32, 81), (97, 34, 82), (97, 35, 83), (97, 43, 85), (97, 51, 92),
        (97, 63, 86), (97, 74, 90), (97, 75, 87), (97, 76, 88), (97, 80, 89), (97, 81, 84),
        (97, 82, 36), (97, 83, 91), (97, 84, 16), (98, 1, 72), (98, 8, 74), (98, 9, 75),
        (98, 12, 76), (98, 13, 100), (98, 20, 78), (98, 28, 79), (98, 30, 80), (98, 32, 81),
        (98, 34, 82), (98, 35, 83), (98, 43, 85), (98, 51, 92), (98, 63, 86), (98, 74, 90),
        (98, 75, 87), (98, 76, 88), (98, 80, 89), (98, 81, 84), (98, 82, 36), (98, 83, 91),
        (98, 84, 16), (99, 56, -69), (99, 57, -69), (99, 58, -69), (99, 59, -69), (99, 60, -69),
        (99, 64, -69), (99, 65, -69), (99, 66, -69), (99, 67, -69), (99, 68, -69), (99, 69, -69),
        (99, 70, -69), (99, 71, -69), (99, 72, -69), (99, 73, -69), (99, 74, -69), (99, 75, -69),
        (99, 76, -69), (99, 77, -69), (99, 78, -69), (99, 79, -69), (100, 56, -36),
        (100, 57, -36), (100, 60, -36), (100, 64, -36), (100, 65, -36), (100, 66, -36),
        (100, 67, 105), (100, 68, 103), (100, 69, 104), (100, 70, 102), (100, 71, 106),
        (100, 72, 101), (101, 1, 72), (101, 8, 74), (101, 9, 75), (101, 12, 76), (101, 20, 78),
        (101, 28, 79), (101, 30, 120), (101, 32, 81), (101, 34, 82), (101, 35, 83), (101, 43, 85),
        (101, 51, 92), (101, 63, 86), (101, 74, 90), (101, 75, 87), (101, 76, 88), (101, 80, 89),
        (101, 81, 84), (101, 82, 36), (101, 83, 91), (101, 84, 16), (102, 1, 72), (102, 8, 74),
        (102, 9, 75), (102, 12, 76), (102, 20, 78), (102, 28, 79), (102, 30, 119), (102, 32, 81),
        (102, 34, 82), (102, 35, 83), (102, 43, 85), (102, 51, 92), (102, 63, 86), (102, 74, 90),
        (102, 75, 87), (102, 76, 88), (102, 80, 89), (102, 81, 84), (102, 82, 36), (102, 83, 91),
        (102, 84, 16), (103, 1, 72), (103, 8, 74), (103, 9, 75), (103, 12, 76), (103, 20, 78),
        (103, 28, 79), (103, 30, 118), (103, 32, 81), (103, 34, 82), (103, 35, 83), (103, 43, 85),
        (103, 51, 92), (103, 63, 86), (103, 74, 90), (103, 75, 87), (103, 76, 88), (103, 80, 89),
        (103, 81, 84), (103, 82, 36), (103, 83, 91), (103, 84, 16), (104, 1, 72), (104, 8, 74),
        (104, 9, 75), (104, 12, 76), (104, 20, 78), (104, 28, 79), (104, 30, 117), (104, 32, 81),
        (104, 34, 82), (104, 35, 83), (104, 43, 85), (104, 51, 92), (104, 63, 86), (104, 74, 90),
        (104, 75, 87), (104, 76, 88), (104, 80, 89), (104, 81, 84), (104, 82, 36), (104, 83, 91),
        (104, 84, 16), (105, 1, 72), (105, 8, 74), (105, 9, 75), (105, 12, 76), (105, 20, 78),
        (105, 28, 79), (105, 30, 116), (105, 32, 81), (105, 34, 82), (105, 35, 83), (105, 43, 85),
        (105, 51, 92), (105, 63, 86), (105, 74, 90), (105, 75, 87), (105, 76, 88), (105, 80, 89),
        (105, 81, 84), (105, 82, 36), (105, 83, 91), (105, 84, 16), (106, 1, 72), (106, 8, 74),
        (106, 9, 75), (106, 12, 76), (106, 20, 78), (106, 28, 79), (106, 30, 107), (106, 32, 81),
        (106, 34, 82), (106, 35, 83), (106, 43, 85), (106, 51, 92), (106, 63, 86), (106, 74, 90),
        (106, 75, 87), (106, 76, 88), (106, 80, 89), (106, 81, 84), (106, 82, 36), (106, 83, 91),
        (106, 84, 16), (107, 56, -43), (107, 57, -43), (107, 60, -43), (107, 64, -43),
        (107, 65, -43), (107, 66, -43), (107, 67, -43), (107, 68, -43), (107, 69, -43),
        (107, 70, -43), (107, 71, -43), (107, 72, -43), (107, 73, 109), (107, 75, 108),
        (108, 1, 72), (108, 8, 74), (108, 9, 75), (108, 12, 76), (108, 20, 78), (108, 28, 79),
        (108, 32, 81), (108, 34, 82), (108, 35, 115), (108, 43, 85), (108, 51, 92), (108, 63, 86),
        (108, 74, 90), (108, 75, 87), (108, 76, 88), (108, 80, 89), (108, 81, 84), (108, 82, 36),
        (108, 83, 91), (108, 84, 16), (109, 1, 72), (109, 8, 74), (109, 9, 75), (109, 12, 76),
        (109, 20, 78), (109, 28, 79), (109, 32, 81), (109, 34, 82), (109, 35, 110), (109, 43, 85),
        (109, 51, 92), (109, 63, 86), (109, 74, 90), (109, 75, 87), (109, 76, 88), (109, 80, 89),
        (109, 81, 84), (109, 82, 36), (109, 83, 91), (109, 84, 16), (110, 56, -45),
        (110, 57, -45), (110, 60, -45), (110, 64, -45), (110, 65, -45), (110, 66, -45),
        (110, 67, -45), (110, 68, -45), (110, 69, -45), (110, 70, -45), (110, 71, -45),
        (110, 72, -45), (110, 73, -45), (110, 75, -45), (110, 77, 112), (110, 78, 111),
        (111, 1, 72), (111, 8, 114), (111, 9, 75), (111, 12, 76), (111, 20, 78), (111, 28, 79),
        (111, 32, 81), (111, 34, 82), (111, 43, 85), (111, 51, 92), (111, 63, 86), (111, 74, 90),
        (111, 75, 87), (111, 76, 88), (111, 80, 89), (111, 81, 84), (111, 82, 36), (111, 83, 91),
        (111, 84, 16), (112, 1, 72), (112, 8, 113), (112, 9, 75), (112, 12, 76), (112, 20, 78),
        (112, 28, 79), (112, 32, 81), (112, 34, 82), (112, 43, 85), (112, 51, 92), (112, 63, 86),
        (112, 74, 90), (112, 75, 87), (112, 76, 88), (112, 80, 89), (112, 81, 84), (112, 82, 36),
        (112, 83, 91), (112, 84, 16), (113, 56, -48), (113, 57, -48), (113, 60, -48),
        (113, 64, -48), (113, 65, -48), (113, 66, -48), (113, 67, -48), (113, 68, -48),
        (113, 69, -48), (113, 70, -48), (113, 71, -48), (113, 72, -48), (113, 73, -48),
        (113, 75, -48), (113, 77, -48), (113, 78, -48), (114, 56, -49), (114, 57, -49),
        (114, 60, -49), (114, 64, -49), (114, 65, -49), (114, 66, -49), (114, 67, -49),
        (114, 68, -49), (114, 69, -49), (114, 70, -49), (114, 71, -49), (114, 72, -49),
        (114, 73, -49), (114, 75, -49), (114, 77, -49), (114, 78, -49), (115, 56, -46),
        (115, 57, -46), (115, 60, -46), (115, 64, -46), (115, 65, -46), (115, 66, -46),
        (115, 67, -46), (115, 68, -46), (115, 69, -46), (115, 70, -46), (115, 71, -46),
        (115, 72, -46), (115, 73, -46), (115, 75, -46), (115, 77, 112), (115, 78, 111),
        (116, 56, -38), (116, 57, -38), (116, 60, -38), (116, 64, -38), (116, 65, -38),
        (116, 66, -38), (116, 67, -38), (116, 68, -38), (116, 69, -38), (116, 70, -38),
        (116, 71, -38), (116, 72, -38), (116, 73, 109), (116, 75, 108), (117, 56, -40),
        (117, 57, -40), (117, 60, -40), (117, 64, -40), (117, 65, -40), (117, 66, -40),
        (117, 67, -40), (117, 68, -40), (117, 69, -40), (117, 70, -40), (117, 71, -40),
        (117, 72, -40), (117, 73, 109), (117, 75, 108), (118, 56, -39), (118, 57, -39),
        (118, 60, -39), (118, 64, -39), (118, 65, -39), (118, 66, -39), (118, 67, -39),
        (118, 68, -39), (118, 69, -39), (118, 70, -39), (118, 71, -39), (118, 72, -39),
        (118, 73, 109), (118, 75, 108), (119, 56, -41), (119, 57, -41), (119, 60, -41),
        (119, 64, -41), (119, 65, -41), (119, 66, -41), (119, 67, -41), (119, 68, -41),
        (119, 69, -41), (119, 70, -41), (119, 71, -41), (119, 72, -41), (119, 73, 109),
        (119, 75, 108), (120, 56, -42), (120, 57, -42), (120, 60, -42), (120, 64, -42),
        (120, 65, -42), (120, 66, -42), (120, 67, -42), (120, 68, -42), (120, 69, -42),
        (120, 70, -42), (120, 71, -42), (120, 72, -42), (120, 73, 109), (120, 75, 108),
        (121, 56, -35), (121, 57, -35), (121, 60, -35), (121, 64, -35), (121, 65, -35),
        (121, 66, -35), (121, 67, 105), (121, 68, 103), (121, 69, 104), (121, 70, 102),
        (121, 71, 106), (121, 72, 101), (122, 56, -68), (122, 57, -68), (122, 58, -68),
        (122, 59, -68), (122, 60, -68), (122, 64, -68), (122, 65, -68), (122, 66, -68),
        (122, 67, -68), (122, 68, -68), (122, 69, -68), (122, 70, -68), (122, 71, -68),
        (122, 72, -68), (122, 73, -68), (122, 74, -68), (122, 75, -68), (122, 76, -68),
        (122, 77, -68), (122, 78, -68), (122, 79, -68), (123, 56, -73), (123, 57, -73),
        (123, 58, -73), (123, 59, -73), (123, 60, -73), (123, 64, -73), (123, 65, -73),
        (123, 66, -73), (123, 67, -73), (123, 68, -73), (123, 69, -73), (123, 70, -73),
        (123, 71, -73), (123, 72, -73), (123, 73, -73), (123, 74, -73), (123, 75, -73),
        (123, 76, -73), (123, 77, -73), (123, 78, -73), (123, 79, -73), (124, 56, -60),
        (124, 57, -60), (124, 60, -60), (124, 64, -60), (124, 65, -60), (124, 66, -60),
        (124, 67, -60), (124, 68, -60), (124, 69, -60), (124, 70, -60), (124, 71, -60),
        (124, 72, -60), (124, 73, -60), (124, 75, -60), (124, 77, -60), (124, 78, -60),
        (125, 56, -53), (125, 57, -53), (125, 59, 95), (125, 60, -53), (125, 64, -53),
        (125, 65, -53), (125, 66, -53), (125, 67, -53), (125, 68, -53), (125, 69, -53),
        (125, 70, -53), (125, 71, -53), (125, 72, -53), (125, 73, -53), (125, 75, -53),
        (125, 77, -53), (125, 78, -53), (125, 79, 94), (126, 56, -59), (126, 57, -59),
        (126, 60, -59), (126, 64, -59), (126, 65, -59), (126, 66, -59), (126, 67, -59),
        (126, 68, -59), (126, 69, -59), (126, 70, -59), (126, 71, -59), (126, 72, -59),
        (126, 73, -59), (126, 75, -59), (126, 77, -59), (126, 78, -59), (127, 64, 128),
        (127, 65, 97), (127, 66, 98), (128, 56, -56), (128, 57, -56), (128, 60, -56),
        (128, 64, -56), (128, 65, -56), (128, 66, -56), (128, 67, -56), (128, 68, -56),
        (128, 69, -56), (128, 70, -56), (128, 71, -56), (128, 72, -56), (128, 73, -56),
        (128, 75, -56), (128, 77, -56), (128, 78, -56), (129, 56, -55), (129, 57, -55),
        (129, 60, -55), (129, 64, -55), (129, 65, -55), (129, 66, -55), (129, 67, -55),
        (129, 68, -55), (129, 69, -55), (129, 70, -55), (129, 71, -55), (129, 72, -55),
        (129, 73, -55), (129, 75, -55), (129, 77, -55), (129, 78, -55), (130, 56, -54),
        (130, 57, -54), (130, 60, -54), (130, 64, -54), (130, 65, -54), (130, 66, -54),
        (130, 67, -54), (130, 68, -54), (130, 69, -54), (130, 70, -54), (130, 71, -54),
        (130, 72, -54), (130, 73, -54), (130, 75, -54), (130, 77, -54), (130, 78, -54),
        (131, 63, 132), (132, 1, 72), (132, 7, 133), (132, 8, 74), (132, 9, 75), (132, 12, 76),
        (132, 13, 77), (132, 16, 134), (132, 20, 78), (132, 28, 79), (132, 30, 80), (132, 32, 81),
        (132, 34, 82), (132, 35, 83), (132, 43, 85), (132, 51, 92), (132, 63, 86), (132, 64, 135),
        (132, 74, 90), (132, 75, 87), (132, 76, 88), (132, 80, 89), (132, 81, 84), (132, 82, 36),
        (132, 83, 91), (132, 84, 16), (133, 57, -67), (133, 64, -67), (133, 65, 97),
        (133, 66, 98), (134, 57, 136), (134, 64, 137), (135, 56, -58), (135, 57, -58),
        (135, 60, -58), (135, 64, -58), (135, 65, -58), (135, 66, -58), (135, 67, -58),
        (135, 68, -58), (135, 69, -58), (135, 70, -58), (135, 71, -58), (135, 72, -58),
        (135, 73, -58), (135, 75, -58), (135, 77, -58), (135, 78, -58), (136, 1, 72),
        (136, 7, 138), (136, 8, 74), (136, 9, 75), (136, 12, 76), (136, 13, 77), (136, 20, 78),
        (136, 28, 79), (136, 30, 80), (136, 32, 81), (136, 34, 82), (136, 35, 83), (136, 43, 85),
        (136, 51, 92), (136, 63, 86), (136, 74, 90), (136, 75, 87), (136, 76, 88), (136, 80, 89),
        (136, 81, 84), (136, 82, 36), (136, 83, 91), (136, 84, 16), (137, 56, -57),
        (137, 57, -57), (137, 60, -57), (137, 64, -57), (137, 65, -57), (137, 66, -57),
        (137, 67, -57), (137, 68, -57), (137, 69, -57), (137, 70, -57), (137, 71, -57),
        (137, 72, -57), (137, 73, -57), (137, 75, -57), (137, 77, -57), (137, 78, -57),
        (138, 57, -66), (138, 64, -66), (138, 65, 97), (138, 66, 98), (139, 24, 140),
        (139, 38, -83), (139, 40, -83), (139, 41, -83), (139, 45, -83), (139, 54, -83),
        (139, 61, -83), (139, 84, -83), (140, 12, 60), (140, 20, 62), (140, 26, 63),
        (140, 31, 141), (140, 38, 65), (140, 40, 66), (140, 41, 67), (140, 45, 68), (140, 54, 69),
        (140, 61, -79), (140, 84, 16), (141, 38, -29), (141, 40, -29), (141, 41, -29),
        (141, 42, -29), (141, 45, -29), (141, 54, -29), (141, 61, -29), (141, 62, -29),
        (141, 84, -29), (142, 1, 72), (142, 7, 143), (142, 8, 74), (142, 9, 75), (142, 12, 76),
        (142, 13, 77), (142, 20, 78), (142, 28, 79), (142, 30, 80), (142, 32, 81), (142, 34, 82),
        (142, 35, 83), (142, 43, 85), (142, 51, 92), (142, 63, 86), (142, 74, 90), (142, 75, 87),
        (142, 76, 88), (142, 80, 89), (142, 81, 84), (142, 82, 36), (142, 83, 91), (142, 84, 16),
        (143, 64, 144), (143, 65, 97), (143, 66, 98), (144, 24, 145), (144, 38, -83),
        (144, 40, -83), (144, 41, -83), (144, 45, -83), (144, 54, -83), (144, 61, -83),
        (144, 84, -83), (145, 12, 60), (145, 20, 62), (145, 26, 63), (145, 31, 146),
        (145, 38, 65), (145, 40, 66), (145, 41, 67), (145, 45, 68), (145, 54, 69), (145, 61, -79),
        (145, 84, 16), (146, 38, -27), (146, 40, -27), (146, 41, -27), (146, 42, 147),
        (146, 45, -27), (146, 54, -27), (146, 61, -27), (146, 62, -27), (146, 84, -27),
        (147, 22, 148), (147, 38, -84), (147, 40, -84), (147, 41, -84), (147, 45, -84),
        (147, 54, -84), (147, 61, -84), (147, 84, -84), (148, 12, 60), (148, 20, 62),
        (148, 26, 63), (148, 31, 149), (148, 38, 65), (148, 40, 66), (148, 41, 67), (148, 45, 68),
        (148, 54, 69), (148, 61, -79), (148, 84, 16), (149, 38, -28), (149, 40, -28),
        (149, 41, -28), (149, 42, -28), (149, 45, -28), (149, 54, -28), (149, 61, -28),
        (149, 62, -28), (149, 84, -28), (150, 12, 60), (150, 20, 62), (150, 26, 63),
        (150, 31, 151), (150, 38, 65), (150, 40, 66), (150, 41, 67), (150, 45, 68), (150, 54, 69),
        (150, 61, -79), (150, 84, 16), (151, 54, 152), (152, 63, 153), (153, 1, 72),
        (153, 7, 154), (153, 8, 74), (153, 9, 75), (153, 12, 76), (153, 13, 77), (153, 20, 78),
        (153, 28, 79), (153, 30, 80), (153, 32, 81), (153, 34, 82), (153, 35, 83), (153, 43, 85),
        (153, 51, 92), (153, 63, 86), (153, 74, 90), (153, 75, 87), (153, 76, 88), (153, 80, 89),
        (153, 81, 84), (153, 82, 36), (153, 83, 91), (153, 84, 16), (154, 64, 155), (154, 65, 97),
        (154, 66, 98), (155, 56, 156), (156, 38, -30), (156, 40, -30), (156, 41, -30),
        (156, 42, -30), (156, 45, -30), (156, 54, -30), (156, 61, -30), (156, 62, -30),
        (156, 84, -30), (157, 38, -34), (157, 40, -34), (157, 41, -34), (157, 42, -34),
        (157, 45, -34), (157, 54, -34), (157, 61, -34), (157, 62, -34), (157, 84, -34),
        (158, 38, -33), (158, 40, -33), (158, 41, -33), (158, 42, -33), (158, 45, -33),
        (158, 54, -33), (158, 61, -33), (158, 62, -33), (158, 84, -33), (159, 38, -31),
        (159, 40, -31), (159, 41, -31), (159, 42, -31), (159, 45, -31), (159, 54, -31),
        (159, 61, -31), (159, 62, -31), (159, 84, -31), (160, 38, -22), (160, 40, -22),
        (160, 41, -22), (160, 45, -22), (160, 54, -22), (160, 61, -22), (160, 62, -22),
        (160, 84, -22), (161, 38, -19), (161, 40, -19), (161, 41, -19), (161, 42, -19),
        (161, 44, -19), (161, 45, -19), (161, 52, -19), (161, 54, -19), (161, 61, -19),
        (161, 62, -19), (161, 84, -19), (161, 85, -19), (162, 1, 72), (162, 7, 163), (162, 8, 74),
        (162, 9, 75), (162, 12, 76), (162, 13, 77), (162, 20, 78), (162, 28, 79), (162, 30, 80),
        (162, 32, 81), (162, 34, 82), (162, 35, 83), (162, 43, 85), (162, 51, 92), (162, 63, 86),
        (162, 74, 90), (162, 75, 87), (162, 76, 88), (162, 80, 89), (162, 81, 84), (162, 82, 36),
        (162, 83, 91), (162, 84, 16), (163, 56, 164), (163, 65, 97), (163, 66, 98),
        (164, 38, -32), (164, 40, -32), (164, 41, -32), (164, 42, -32), (164, 45, -32),
        (164, 54, -32), (164, 61, -32), (164, 62, -32), (164, 84, -32), (165, 55, 166),
        (166, 12, 11), (166, 33, 167), (166, 37, 14), (166, 39, 15), (166, 46, 17), (166, 49, 18),
        (166, 84, 16), (167, 57, -17), (167, 64, -17), (168, 12, 11), (168, 33, 169),
        (168, 37, 14), (168, 39, 15), (168, 46, 17), (168, 49, 18), (168, 84, 16), (169, 57, -18),
        (169, 64, -18), (170, 44, -2), (170, 52, -2), (170, 85, -2),
    ];
    let mut action = vec![vec![0; 86]; 171];
    for (state, column, entry) in entries {
        action[state][column] = entry;
    }
    let rule_len: Vec<usize> = vec![
        1, 2, 1, 1, 1, 1, 1, 1, 1, 1, 9, 8, 4, 5, 3, 10, 5, 3, 4, 2, 1, 2, 1, 5, 3, 1, 6, 9, 7, 8,
        2, 4, 2, 2, 3, 3, 1, 3, 3, 3, 3, 3, 3, 1, 3, 3, 1, 3, 3, 1, 1, 2, 2, 2, 2, 3, 5, 4, 2, 2,
        1, 1, 1, 1, 1, 3, 1, 3, 4, 1, 1, 1, 1, 1, 1, 1, 1, 1, 0, 0, 0, 0, 0, 0, 0,
    ];
    let rule_left = vec![
        nonterminals::Token::P, nonterminals::Token::LDE, nonterminals::Token::LDE,
        nonterminals::Token::DE, nonterminals::Token::DE, nonterminals::Token::T,
        nonterminals::Token::T, nonterminals::Token::T, nonterminals::Token::T,
        nonterminals::Token::T, nonterminals::Token::DT, nonterminals::Token::DT,
        nonterminals::Token::DT, nonterminals::Token::DC, nonterminals::Token::DC,
        nonterminals::Token::DF, nonterminals::Token::LP, nonterminals::Token::LP,
        nonterminals::Token::B, nonterminals::Token::LDV, nonterminals::Token::LDV,
        nonterminals::Token::LS, nonterminals::Token::LS, nonterminals::Token::DV,
        nonterminals::Token::LI, nonterminals::Token::LI, nonterminals::Token::S,
        nonterminals::Token::S, nonterminals::Token::S, nonterminals::Token::S,
        nonterminals::Token::S, nonterminals::Token::S, nonterminals::Token::S,
        nonterminals::Token::S, nonterminals::Token::E, nonterminals::Token::E,
        nonterminals::Token::E, nonterminals::Token::L, nonterminals::Token::L,
        nonterminals::Token::L, nonterminals::Token::L, nonterminals::Token::L,
        nonterminals::Token::L, nonterminals::Token::L, nonterminals::Token::R,
        nonterminals::Token::R, nonterminals::Token::R, nonterminals::Token::Y,
        nonterminals::Token::Y, nonterminals::Token::Y, nonterminals::Token::F,
        nonterminals::Token::F, nonterminals::Token::F, nonterminals::Token::F,
        nonterminals::Token::F, nonterminals::Token::F, nonterminals::Token::F,
        nonterminals::Token::F, nonterminals::Token::F, nonterminals::Token::F,
        nonterminals::Token::F, nonterminals::Token::F, nonterminals::Token::F,
        nonterminals::Token::F, nonterminals::Token::F, nonterminals::Token::LE,
        nonterminals::Token::LE, nonterminals::Token::LV, nonterminals::Token::LV,
        nonterminals::Token::LV, nonterminals::Token::IDD, nonterminals::Token::IDU,
        nonterminals::Token::ID, nonterminals::Token::TRUE, nonterminals::Token::FALSE,
        nonterminals::Token::C, nonterminals::Token::STR, nonterminals::Token::NUM,
        nonterminals::Token::NB, nonterminals::Token::NF, nonterminals::Token::MF,
        nonterminals::Token::MC, nonterminals::Token::MT, nonterminals::Token::ME,
        nonterminals::Token::MW,
    ];
    GrammarTables::new(action, rule_len, rule_left)
}

fn check(code: &str) -> Result<(), AnalysisError> {
    analyze(String::from(code), &tables())
}

#[test]
fn test_syntax_and_semantics() {
    let code = String::from("
        type int = integer
        type intArray = array[10] of int

        type Pessoa = struct {
          nome : string;
          id : int;
          telefones : intArray
        }

        type pessoaArray = array[20] of Pessoa

        function funcaoRecursiva(n : int) : integer {
          var p : integer;
          var x : intArray;
          var pessoa : Pessoa;
          if (n == pessoa.id)
            p = funcaoRecursiva(n-1);
        }

        function addPessoa(posicao : integer, pessoa : Pessoa,arr : pessoaArray) : integer {
          var a,g,i,n : int;
          var b : int;
          var c : boolean;
          var str : string;
          var carac1, carac2 : char;

          if (a == 0)
            g = funcaoRecursiva(i-1);

          a = posicao;
          c = (a>b) && (a<b) || (a <= b) || (b>= a);

          if (a > b) {
            var tmp : integer;
            tmp = funcaoRecursiva(tmp-1);
          }
        }

        
    ");

    let mut parser = StateMachine::new(code);
    assert_eq!(parser.parse(&tables()), Ok(true));
}

#[test]
fn test_syntax_and_semantics_2() {
    let code = String::from("
        function fibonacci(n : integer) : integer {
          var ret : integer;
          if (n >= 2)
            ret = fibonacci(n-1) + fibonacci(n-2);
        } 
    ");

    let mut parser = StateMachine::new(code);
    assert_eq!(parser.parse(&tables()), Ok(true));
}

#[test]
fn test_syntax_and_semantics_3() {
    let code = String::from("
        function fibonacci(n : integer) : integer {
          var ret : integer;
          if (n >= 2)
            ret = fibonacci(n-1) + fibonacci(n-2);
        } 

        function main(x : integer) : boolean {
            var res : integer;
            res = fibonacci();
        }
    ");

    let mut parser = StateMachine::new(code);
    assert_eq!(parser.parse(&tables()), Err(AnalysisError::ArityMismatch(Arity::TooFewArguments)));
}

#[test]
fn test_syntax_and_semantics_4() {
    let code = String::from("
        function fibonacci(n : integer) : integer {
          var ret : integer;
          if (n >= 2)
            ret = fibonacci(n-1) + fibonacci(n-2);
        } 

        function main(x : integer) : boolean {
            var res : boolean;
            res = fibonacci(5);
        }
    ");

    let mut parser = StateMachine::new(code);
    assert_eq!(parser.parse(&tables()), Err(AnalysisError::TypeMismatch(Construct::Assignment)));
}

#[test]
fn test_syntax_and_semantics_5() {
    let code = String::from("
        type aluno = struct {
            nome, sobrenome : string;
            id : integer
        }

        type professor = struct {
            name, sobrenome : string;
            id : integer
        }
        
        type materia = struct {
            name : string; prof : professor
        }

        function main(x : string) : integer {
            var rafael : aluno;
            var matheus : aluno;
            var daniel : professor;
            var matematica : materia;
            var resultado : integer;

            resultado = -1;

            if (rafael == matheus) 
                resultado = 0;
        }
    ");

    let mut parser = StateMachine::new(code);
    assert_eq!(parser.parse(&tables()), Ok(true));
}

#[test]
fn test_syntax_and_semantics_6() {
    let code = String::from("
        function main(n : integer) : boolean {
            var cnt : integer;
            cnt = 0;
            while ( true ) {
                var temp : integer;
                temp = cnt++;
                if (cnt == 10) {
                    var x : string;
                    break;
                }
            }
        }
    ");

    let mut parser = StateMachine::new(code);
    assert_eq!(parser.parse(&tables()), Ok(true));
}

#[test]
fn test_syntax_and_semantics_7() {
    let code = String::from("
        type casa = struct {
            morador, endereco : string
        }

        type carro = struct {
            motorista, placa : string
        }
        

        function main(x : string) : integer {
            var minha_casa : casa;
            var meu_carro : carro;
            var ok : boolean;

            if (minha_casa == meu_carro) ok = false; 
        }
    ");

    // An underscore ends a word, so `minha_casa` is no single identifier.
    let mut parser = StateMachine::new(code);
    assert_eq!(parser.parse(&tables()), Err(AnalysisError::SyntaxError));
}
#[test]
fn recursive_function_is_accepted() {
    let code = "function fib(n: integer): integer { var r: integer; if (n >= 2) r = fib(n-1)+fib(n-2); }";
    assert_eq!(check(code), Ok(()));
}

#[test]
fn call_without_arguments_has_too_few() {
    let code = "
        function fib(n: integer): integer { var r: integer; if (n >= 2) r = fib(n-1)+fib(n-2); }
        function main(x: integer): boolean { var res: integer; res = fib(); }
    ";
    assert_eq!(check(code), Err(AnalysisError::ArityMismatch(Arity::TooFewArguments)));
}

#[test]
fn structs_of_one_shape_compare() {
    let code = "
        type casa = struct { a, b : string }
        type lar = struct { a, b : string }
        function main(x : string) : integer {
            var c : casa;
            var l : lar;
            var ok : boolean;
            if (c == l) ok = false;
        }
    ";
    assert_eq!(check(code), Ok(()));
}

#[test]
fn structs_of_different_field_types_do_not_compare() {
    let code = "
        type casa = struct { a, b : string }
        type carro = struct { a : string; b : integer }
        function main(x : string) : integer {
            var c : casa;
            var k : carro;
            var ok : boolean;
            if (c == k) ok = false;
        }
    ";
    assert_eq!(check(code), Err(AnalysisError::TypeMismatch(Construct::EqualEqual)));
}

#[test]
fn structs_of_different_field_names_do_not_compare() {
    let code = "
        type casa = struct { a, b : string }
        type carro = struct { c, d : string }
        function main(x : string) : integer {
            var m : casa;
            var n : carro;
            var ok : boolean;
            if (m == n) ok = false;
        }
    ";
    assert_eq!(check(code), Err(AnalysisError::TypeMismatch(Construct::EqualEqual)));
}

#[test]
fn array_element_is_assigned() {
    let code = "
        type intArray = array[10] of integer
        function main(n : integer) : integer {
            var x : intArray;
            x[0] = 5;
        }
    ";
    assert_eq!(check(code), Ok(()));
}

#[test]
fn missing_field_is_reported() {
    let code = "
        type t = struct { a : integer }
        function main(n : integer) : integer {
            var v : t;
            v.b = 1;
        }
    ";
    assert_eq!(check(code), Err(AnalysisError::StructFieldNotDeclared));
}

#[test]
fn declared_field_is_found_whatever_its_place() {
    let code = "
        type t = struct { a : integer; b, c : string; d : boolean }
        function main(n : integer) : integer {
            var v : t;
            v.d = true;
            v.a = 1;
            v.c = v.b;
        }
    ";
    assert_eq!(check(code), Ok(()));
}

#[test]
fn use_before_declaration_is_reported() {
    let code = "function main(n : integer) : integer { var a : integer; b = 1; }";
    assert_eq!(check(code), Err(AnalysisError::IdentifierNotDeclared));
}

#[test]
fn empty_program_is_a_syntax_error() {
    assert_eq!(check(""), Err(AnalysisError::SyntaxError));
}

#[test]
fn unknown_text_is_a_syntax_error() {
    assert_eq!(check("function # main"), Err(AnalysisError::SyntaxError));
}

#[test]
fn misplaced_token_is_a_syntax_error() {
    let code = "function main(n : integer) : integer { var a : integer; a = ; }";
    assert_eq!(check(code), Err(AnalysisError::SyntaxError));
}

#[test]
fn numeral_with_fraction_is_a_syntax_error() {
    let code = "function main(n : integer) : integer { var a : integer; a = 1.5; }";
    assert_eq!(check(code), Err(AnalysisError::SyntaxError));
}

#[test]
fn redeclaration_in_one_block_is_reported() {
    let code = "function main(n : integer) : integer { var a : integer; var a : string; a = 1; }";
    assert_eq!(check(code), Err(AnalysisError::IdentifierRedeclared));
}

#[test]
fn parameter_and_variable_share_a_block() {
    let code = "function main(n : integer) : integer { var n : integer; n = 1; }";
    assert_eq!(check(code), Err(AnalysisError::IdentifierRedeclared));
}

#[test]
fn nested_block_may_shadow() {
    let code = "
        function main(n : integer) : integer {
            var a : integer;
            var s : string;
            a = 1;
            {
                var a : string;
                a = s;
            }
            a = 2;
        }
    ";
    assert_eq!(check(code), Ok(()));
}

#[test]
fn shadowed_name_has_the_inner_type() {
    let code = "
        function main(n : integer) : integer {
            var a : integer;
            a = 1;
            {
                var a : string;
                a = 2;
            }
        }
    ";
    assert_eq!(check(code), Err(AnalysisError::TypeMismatch(Construct::Assignment)));
}

#[test]
fn block_ends_with_its_bindings() {
    let code = "
        function main(n : integer) : integer {
            var a : integer;
            a = 1;
            {
                var b : integer;
                b = 2;
            }
            b = 3;
        }
    ";
    assert_eq!(check(code), Err(AnalysisError::IdentifierNotDeclared));
}

#[test]
fn conditions_are_boolean() {
    let head = "function main(n : integer) : integer { var a : integer; ";
    let code = format!("{head} if (a) a = 1; }}");
    assert_eq!(check(&code), Err(AnalysisError::TypeMismatch(Construct::If)));
    let code = format!("{head} if (a) a = 1; else a = 2; }}");
    assert_eq!(check(&code), Err(AnalysisError::TypeMismatch(Construct::IfElse)));
    let code = format!("{head} while (a) a = 1; }}");
    assert_eq!(check(&code), Err(AnalysisError::TypeMismatch(Construct::While)));
    let code = format!("{head} do a = 1; while (a); }}");
    assert_eq!(check(&code), Err(AnalysisError::TypeMismatch(Construct::DoWhile)));
    let code = format!("{head} if (a == 1) a = 1; else a = 2; while (a < 3) a = a + 1; do a = 1; while (a != 1); }}");
    assert_eq!(check(&code), Ok(()));
}

#[test]
fn operators_take_their_types() {
    let head = "function main(n : integer) : integer { var a, b : integer; var s, t : string; var p, q : boolean; var c : char; ";
    let cases: Vec<(&str, Result<(), AnalysisError>)> = vec![
        ("a = a + b;", Ok(())),
        ("s = s + t;", Ok(())),
        ("a = a + s;", Err(AnalysisError::TypeMismatch(Construct::Addition))),
        ("p = p + q;", Err(AnalysisError::InvalidOperandType(Construct::Addition))),
        ("a = a - b;", Ok(())),
        ("s = s - t;", Err(AnalysisError::InvalidOperandType(Construct::Subtraction))),
        ("a = a - s;", Err(AnalysisError::TypeMismatch(Construct::Subtraction))),
        ("a = a * b;", Ok(())),
        ("s = s * t;", Err(AnalysisError::InvalidOperandType(Construct::Multiplication))),
        ("a = a * c;", Err(AnalysisError::TypeMismatch(Construct::Multiplication))),
        ("a = a / b;", Ok(())),
        ("s = s / t;", Err(AnalysisError::InvalidOperandType(Construct::Division))),
        ("a = c / a;", Err(AnalysisError::TypeMismatch(Construct::Division))),
        ("p = p && q;", Ok(())),
        ("p = p && a;", Err(AnalysisError::InvalidOperandType(Construct::And))),
        ("p = a || q;", Err(AnalysisError::InvalidOperandType(Construct::Or))),
        ("p = a < b;", Ok(())),
        ("p = s < t;", Ok(())),
        ("p = a < s;", Err(AnalysisError::TypeMismatch(Construct::LessThan))),
        ("p = a > s;", Err(AnalysisError::TypeMismatch(Construct::GreaterThan))),
        ("p = a <= s;", Err(AnalysisError::TypeMismatch(Construct::LessOrEqual))),
        ("p = a >= s;", Err(AnalysisError::TypeMismatch(Construct::GreaterOrEqual))),
        ("p = a == s;", Err(AnalysisError::TypeMismatch(Construct::EqualEqual))),
        ("p = a != s;", Err(AnalysisError::TypeMismatch(Construct::NotEqual))),
        ("a = -a;", Ok(())),
        ("s = -s;", Err(AnalysisError::InvalidOperandType(Construct::Negation))),
        ("p = !p;", Ok(())),
        ("a = !a;", Err(AnalysisError::InvalidOperandType(Construct::Not))),
        ("a = ++a;", Ok(())),
        ("s = ++s;", Err(AnalysisError::InvalidOperandType(Construct::PreIncrement))),
        ("s = --s;", Err(AnalysisError::InvalidOperandType(Construct::PreDecrement))),
        ("a = a++;", Ok(())),
        ("s = s++;", Err(AnalysisError::InvalidOperandType(Construct::PostIncrement))),
        ("s = s--;", Err(AnalysisError::InvalidOperandType(Construct::PostDecrement))),
        ("a = (a + b) * 2;", Ok(())),
        ("c = 'x';", Ok(())),
        ("c = s[1];", Ok(())),
        ("c = s[p];", Err(AnalysisError::InvalidOperandType(Construct::Index))),
        ("a = a[1];", Err(AnalysisError::InvalidIndexTarget)),
        ("a = s;", Err(AnalysisError::TypeMismatch(Construct::Assignment))),
    ];
    for (statement, expected) in cases {
        let code = format!("{head} {statement} }}");
        assert_eq!(check(&code), expected, "{statement}");
    }
}

#[test]
fn identifiers_play_their_roles() {
    let code = "
        function f(n : integer) : integer { var a : integer; a = a(1); }
    ";
    assert_eq!(check(code), Err(AnalysisError::InvalidKind(Role::Callable)));
    let code = "
        function f(n : integer) : integer { var a : integer; f = 1; }
    ";
    assert_eq!(check(code), Err(AnalysisError::InvalidKind(Role::Lvalue)));
    let code = "
        function f(n : integer) : integer { var a : integer; var b : a; b = 1; }
    ";
    assert_eq!(check(code), Err(AnalysisError::InvalidKind(Role::TypeName)));
    let code = "
        function f(n : integer) : integer { var a : integer; a.b = 1; }
    ";
    assert_eq!(check(code), Err(AnalysisError::InvalidKind(Role::FieldList)));
}

#[test]
fn arguments_are_checked_in_order() {
    let head = "
        function f(a : integer, b : string) : boolean { var r : boolean; r = true; }
        function main(n : integer) : integer { var p : boolean; var s : string;
    ";
    let code = format!("{head} p = f(1, s); }}");
    assert_eq!(check(&code), Ok(()));
    let code = format!("{head} p = f(s, s); }}");
    assert_eq!(check(&code), Err(AnalysisError::TypeMismatch(Construct::Argument(1))));
    let code = format!("{head} p = f(1, 2); }}");
    assert_eq!(check(&code), Err(AnalysisError::TypeMismatch(Construct::Argument(2))));
    let code = format!("{head} p = f(1); }}");
    assert_eq!(check(&code), Err(AnalysisError::ArityMismatch(Arity::TooFewArguments)));
    let code = format!("{head} p = f(1, s, 3); }}");
    assert_eq!(check(&code), Err(AnalysisError::ArityMismatch(Arity::TooManyArguments)));
    let code = format!("{head} p = f(); }}");
    assert_eq!(check(&code), Err(AnalysisError::ArityMismatch(Arity::TooFewArguments)));
    let code = format!("{head} n = f(1, s); }}");
    assert_eq!(check(&code), Err(AnalysisError::TypeMismatch(Construct::Assignment)));
}

#[test]
fn lists_keep_source_order() {
    let code = String::from(
        "
        type t = struct { a, b : integer; c : string }
        function f(x : integer, y : string, z : boolean) : char { var r : char; r = 'c'; }
    ",
    );
    let mut parser = StateMachine::new(code);
    assert_eq!(parser.parse(&tables()), Ok(true));
    let field = |name: &str, t: Type| Object(String::from(name), Kind::field(t));
    let fields = vec![
        field("a", Type::Int_),
        field("b", Type::Int_),
        field("c", Type::String_),
    ];
    assert_eq!(
        parser.scope_analyzer().find("t"),
        Some(Object(String::from("t"), Kind::struct_(Type::Struct_type_(Box::new(fields)))))
    );
    assert_eq!(
        parser.scope_analyzer().find("f"),
        Some(Object(
            String::from("f"),
            Kind::function(Type::Char_, vec![Type::Int_, Type::String_, Type::Bool_])
        ))
    );
    assert_eq!(parser.scope_analyzer().depth(), 1);
    assert_eq!(parser.scope_analyzer().find("x"), None);
}

#[test]
fn tables_without_entries_reject() {
    let none = GrammarTables::new(Vec::new(), Vec::new(), Vec::new());
    assert_eq!(analyze(String::from("function"), &none), Err(AnalysisError::SyntaxError));
    assert_eq!(none.entry(0, 0), 0);
    assert_eq!(none.length(0), None);
    assert_eq!(none.left(0), None);
    let some = tables();
    assert_eq!(some.length(0), Some(1));
    assert_eq!(some.left(0), Some(nonterminals::Token::P));
    assert_eq!(some.entry(0, nonterminals::Token::P.into_usize()), 1);
    assert_eq!(some.entry(0, 1000), 0);
    assert_eq!(some.entry(100000, 0), 0);
}

#[test]
fn string_literal_takes_the_rest_of_the_text() {
    let code = "function main(n : integer) : integer { var s : string; s = \"text\"; }";
    assert_eq!(check(code), Err(AnalysisError::SyntaxError));
}

/// Tables with `states` states whose action table holds the given entries
/// and nothing else, with the rule tables of the grammar.
fn tables_with(states: usize, entries: Vec<(usize, usize, i32)>) -> GrammarTables {
    let mut action = vec![vec![0; 86]; states];
    for (state, column, entry) in entries {
        action[state][column] = entry;
    }
    let (_, rule_len, rule_left) = parts();
    GrammarTables::new(action, rule_len, rule_left)
}

fn parts() -> (usize, Vec<usize>, Vec<nonterminals::Token>) {
    let whole = tables();
    let mut rule_len = Vec::new();
    let mut rule_left = Vec::new();
    let mut rule = 0;
    while let (Some(length), Some(left)) = (whole.length(rule), whole.left(rule)) {
        rule_len.push(length);
        rule_left.push(left);
        rule += 1;
    }
    (rule, rule_len, rule_left)
}

const END: usize = 85;

#[test]
fn automaton_accepts_in_state_one() {
    let shift = tables_with(2, vec![(0, END, 1)]);
    assert_eq!(analyze(String::new(), &shift), Ok(()));
    let mut parser = StateMachine::new(String::from("  \n "));
    assert_eq!(parser.parse(&shift), Ok(true));
    assert_eq!(analyze(String::from("x"), &shift), Err(AnalysisError::SyntaxError));
}

#[test]
fn reduction_goes_to_the_state_of_the_left_side() {
    let (rules, _, _) = parts();
    assert_eq!(rules, 85);
    // `MT -> (empty)` is the production 82; the column of `MT` is 24.
    let marker = tables_with(3, vec![(0, END, -83), (0, 24, 2), (2, END, 1)]);
    assert_eq!(analyze(String::new(), &marker), Ok(()));
    let no_goto = tables_with(3, vec![(0, END, -83)]);
    assert_eq!(analyze(String::new(), &no_goto), Err(AnalysisError::SyntaxError));
    let negative_goto = tables_with(3, vec![(0, END, -83), (0, 24, -1)]);
    assert_eq!(analyze(String::new(), &negative_goto), Err(AnalysisError::SyntaxError));
    let goto_outside = tables_with(3, vec![(0, END, -83), (0, 24, 7)]);
    assert_eq!(analyze(String::new(), &goto_outside), Err(AnalysisError::SyntaxError));
}

#[test]
fn reduction_needs_its_right_side_on_the_stacks() {
    // `E -> L` is the production 36: no attribute of `L` is on the stack.
    let early = tables_with(2, vec![(0, END, -37), (0, 7, 1)]);
    assert_eq!(analyze(String::new(), &early), Err(AnalysisError::SyntaxError));
    // `T -> integer` is the production 5 and has one symbol: the start state would leave.
    let short = tables_with(2, vec![(0, END, -6), (0, 33, 1)]);
    assert_eq!(analyze(String::new(), &short), Err(AnalysisError::SyntaxError));
    // Read the keyword first, and the reduction finds what it needs.
    let read = tables_with(3, vec![(0, 46, 2), (2, END, -6), (0, 33, 1)]);
    assert_eq!(analyze(String::from("integer"), &read), Ok(()));
}

#[test]
fn unknown_production_is_a_syntax_error() {
    let beyond = tables_with(2, vec![(0, END, -86)]);
    assert_eq!(analyze(String::new(), &beyond), Err(AnalysisError::SyntaxError));
    let least = tables_with(2, vec![(0, END, i32::MIN)]);
    assert_eq!(analyze(String::new(), &least), Err(AnalysisError::SyntaxError));
    let last = tables_with(3, vec![(0, END, -85), (0, 25, 1)]);
    assert_eq!(analyze(String::new(), &last), Ok(()));
}

#[test]
fn semantic_violation_comes_before_missing_goto() {
    // `IDU -> identifier` is the production 71; nothing is declared.
    let use_first = tables_with(3, vec![(0, 84, 2), (2, END, -72)]);
    assert_eq!(analyze(String::from("x"), &use_first), Err(AnalysisError::IdentifierNotDeclared));
    // `IDD -> identifier` is the production 70; the declaration succeeds, the goto is missing.
    let declare_first = tables_with(3, vec![(0, 84, 2), (2, END, -71)]);
    assert_eq!(analyze(String::from("x"), &declare_first), Err(AnalysisError::SyntaxError));
}

#[test]
fn machine_can_run_again() {
    let code = String::from("function f(n : integer) : integer { var a : integer; a = n; }");
    let mut parser = StateMachine::new(code);
    assert_eq!(parser.parse(&tables()), Ok(true));
    // The states of the first run are still there: the automaton has accepted and expects nothing.
    assert_eq!(parser.parse(&tables()), Err(AnalysisError::SyntaxError));
}
