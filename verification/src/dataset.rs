use vstd::prelude::*;

use crate::store::Interaction;
use crate::strutil::str_eq;

verus! {

/// The views of a list of string slices.
pub open spec fn str_views(s: Seq<&str>) -> Seq<Seq<char>> {
    s.map_values(|t: &str| t@)
}

proof fn lemma_str_views_add(a: Seq<&str>, b: Seq<&str>)
    ensures
        str_views(a + b) == str_views(a) + str_views(b),
{
    assert(str_views(a + b) =~= str_views(a) + str_views(b));
}

// The full query list is stated in parts: one literal sequence of its full
// size is too large for the solver to index element by element.
pub open spec fn full_part_0_list() -> Seq<Seq<char>> {
    seq![
        "Hey Siri. What are 130 miles in yards?"@,
        "Hey Siri. What's 200 pounds in kilograms?"@,
        "Hey Siri. What's 45 miles per hour in meters per second?"@,
        "Hey Siri. What are 3 gigabytes in megabytes?"@,
        "Hey Siri. Convert 4.2 acres to square meters."@,
        "Hey Siri. Convert 250 milliliters to cups."@,
        "Hey Siri. Convert 180 degrees Celsius to Fahrenheit."@,
        "Hey Siri. Convert 3000 calories to kilojoules."@,
        "Hey Siri. Convert 75 miles per gallon to kilometers per liter."@,
        "Hey Siri. What’s 9 plus 53?"@,
        "Hey Siri. What is 2 to the power of 17?"@,
        "Hey Siri. What is the result of 25 to the power of 4?"@,
        "Hey Siri. What is 244 plus 5%?"@,
        "Hey Siri. What is $200 minus 21%?"@,
        "Hey Siri. What is 9 percent of 63?"@,
        "Hey Siri. What is the area of a circle with a radius of 2 meters?"@,
        "Hey Siri. What is the remainder when 27 is divided by 5?"@,
        "Hey Siri. Calculate the hypotenuse of a right triangle with legs 3 and 4."@,
        "Hey Siri. Find the greatest common divisor of 48 and 36."@,
        "Hey Siri. What date is 90 days before December 17?"@,
        "Hey Siri. What year is 39 years after 1994?"@,
        "Hey Siri. How many years until 2049?"@,
        "Hey Siri. How many days until Easter?"@,
        "Hey Siri. How many days until Christmas?"@,
        "Hey Siri. What are two hours five minutes and 39 seconds in seconds?"@,
        "Hey Siri. What is the time zone in London?"@,
        "Hey Siri. What time is it in London?"@,
        "Hey Siri. Current time?"@,
        "Hey Siri. Turn the lights blue"@,
    ]
}

fn full_part_0_vec() -> (v: Vec<&'static str>)
    ensures
        str_views(v@) == full_part_0_list(),
{
    let mut v: Vec<&'static str> = Vec::new();
    v.push("Hey Siri. What are 130 miles in yards?");
    v.push("Hey Siri. What's 200 pounds in kilograms?");
    v.push("Hey Siri. What's 45 miles per hour in meters per second?");
    v.push("Hey Siri. What are 3 gigabytes in megabytes?");
    v.push("Hey Siri. Convert 4.2 acres to square meters.");
    v.push("Hey Siri. Convert 250 milliliters to cups.");
    v.push("Hey Siri. Convert 180 degrees Celsius to Fahrenheit.");
    v.push("Hey Siri. Convert 3000 calories to kilojoules.");
    v.push("Hey Siri. Convert 75 miles per gallon to kilometers per liter.");
    v.push("Hey Siri. What’s 9 plus 53?");
    v.push("Hey Siri. What is 2 to the power of 17?");
    v.push("Hey Siri. What is the result of 25 to the power of 4?");
    v.push("Hey Siri. What is 244 plus 5%?");
    v.push("Hey Siri. What is $200 minus 21%?");
    v.push("Hey Siri. What is 9 percent of 63?");
    v.push("Hey Siri. What is the area of a circle with a radius of 2 meters?");
    v.push("Hey Siri. What is the remainder when 27 is divided by 5?");
    v.push("Hey Siri. Calculate the hypotenuse of a right triangle with legs 3 and 4.");
    v.push("Hey Siri. Find the greatest common divisor of 48 and 36.");
    v.push("Hey Siri. What date is 90 days before December 17?");
    v.push("Hey Siri. What year is 39 years after 1994?");
    v.push("Hey Siri. How many years until 2049?");
    v.push("Hey Siri. How many days until Easter?");
    v.push("Hey Siri. How many days until Christmas?");
    v.push("Hey Siri. What are two hours five minutes and 39 seconds in seconds?");
    v.push("Hey Siri. What is the time zone in London?");
    v.push("Hey Siri. What time is it in London?");
    v.push("Hey Siri. Current time?");
    v.push("Hey Siri. Turn the lights blue");
    proof {
        assert(str_views(v@) =~= full_part_0_list());
    }
    v
}

pub open spec fn full_part_1_list() -> Seq<Seq<char>> {
    seq![
        "Hey Siri. Turn off the radio"@,
        "Hey Siri. I’m home"@,
        "Hey Siri. Set the brightness of the downstairs lights to 50%"@,
        "Hey Siri. Lock the front door"@,
        "Hey Siri. Open the garage"@,
        "Hey Siri. John is my brother"@,
        "Hey Siri. That’s not how you say John Doe"@,
        "Hey Siri. Show John Doe"@,
        "Hey Siri. When is John’s birthday?"@,
        "Hey Siri. How old is my brother?"@,
        "Hey Siri. Whose phone is this?"@,
        "Hey Siri. Learn to pronounce my name"@,
        "Hey Siri. Call John"@,
        "Hey Siri. Call 408 555 1212"@,
        "Hey Siri. Call my brother on speakerphone"@,
        "Hey Siri. Call the nearest restaurant"@,
        "Hey Siri. When did my brother call me?"@,
        "Hey Siri. Play voicemail from John"@,
        "Hey Siri. Get my call history"@,
        "Hey Siri. Redial my last number"@,
        "Hey Siri. Call back my last missed call"@,
        "Hey Siri. Any new voicemail?"@,
        "Hey Siri. Play me my latest voicemail"@,
        "Hey Siri. Show me new messages from John Doe"@,
        "Hey Siri. Show me my messages"@,
        "Hey Siri. Read my messages"@,
        "Hey Siri. Text John Doe I’m in a meeting"@,
        "Hey Siri. Message my brother I’ll be late"@,
        "Hey Siri. Send John see you later"@,
    ]
}

fn full_part_1_vec() -> (v: Vec<&'static str>)
    ensures
        str_views(v@) == full_part_1_list(),
{
    let mut v: Vec<&'static str> = Vec::new();
    v.push("Hey Siri. Turn off the radio");
    v.push("Hey Siri. I’m home");
    v.push("Hey Siri. Set the brightness of the downstairs lights to 50%");
    v.push("Hey Siri. Lock the front door");
    v.push("Hey Siri. Open the garage");
    v.push("Hey Siri. John is my brother");
    v.push("Hey Siri. That’s not how you say John Doe");
    v.push("Hey Siri. Show John Doe");
    v.push("Hey Siri. When is John’s birthday?");
    v.push("Hey Siri. How old is my brother?");
    v.push("Hey Siri. Whose phone is this?");
    v.push("Hey Siri. Learn to pronounce my name");
    v.push("Hey Siri. Call John");
    v.push("Hey Siri. Call 408 555 1212");
    v.push("Hey Siri. Call my brother on speakerphone");
    v.push("Hey Siri. Call the nearest restaurant");
    v.push("Hey Siri. When did my brother call me?");
    v.push("Hey Siri. Play voicemail from John");
    v.push("Hey Siri. Get my call history");
    v.push("Hey Siri. Redial my last number");
    v.push("Hey Siri. Call back my last missed call");
    v.push("Hey Siri. Any new voicemail?");
    v.push("Hey Siri. Play me my latest voicemail");
    v.push("Hey Siri. Show me new messages from John Doe");
    v.push("Hey Siri. Show me my messages");
    v.push("Hey Siri. Read my messages");
    v.push("Hey Siri. Text John Doe I’m in a meeting");
    v.push("Hey Siri. Message my brother I’ll be late");
    v.push("Hey Siri. Send John see you later");
    proof {
        assert(str_views(v@) =~= full_part_1_list());
    }
    v
}

pub open spec fn full_part_2_list() -> Seq<Seq<char>> {
    seq![
        "Hey Siri. Tell John I’m on the way"@,
        "Hey Siri. Ask my brother Where are you?"@,
        "Hey Siri. Any new email from John Doe?"@,
        "Hey Siri. Show me the email from John Doe yesterday"@,
        "Hey Siri. Send an email to John Doe Protocol"@,
        "Hey Siri. Check email"@,
        "Hey Siri. Read my last email"@,
        "Hey Siri. Post to Facebook I’m eating a sandwich"@,
        "Hey Siri. Post to Twitter Happy New Year!"@,
        "Hey Siri. Tweet with my location very hot here"@,
        "Hey Siri. Show me tweets from Twitter"@,
        "Hey Siri. Show me the latest tweets"@,
        "Hey Siri. Schedule an event Party in New York Wednesday at 10 PM"@,
        "Hey Siri. Schedule a meeting at 1 PM tomorrow for 2 hours"@,
        "Hey Siri. Create a recurring event every Saturday at 2:30 PM called Party"@,
        "Hey Siri. Set up a meeting with John for today at 3 PM"@,
        "Hey Siri. Show me my next appointment"@,
        "Hey Siri. Where is my next meeting?"@,
        "Hey Siri. Show me the appointments for this afternoon"@,
        "Hey Siri. What does my calendar look like on Monday?"@,
        "Hey Siri. When am I meeting with John Doe?"@,
        "Hey Siri. Cancel my Party in New York event from tomorrow"@,
        "Hey Siri. Cancel my event with John Doe"@,
        "Hey Siri. Move my Monday meeting with John to 3 o’clock"@,
        "Hey Siri. Remind me on Friday at 10 PM to wash the car"@,
        "Hey Siri. Add Milk to the Grocery list"@,
        "Hey Siri. Remind me to wash the car when I leave home today"@,
        "Hey Siri. Remind me to buy milk next time I’m here"@,
        "Hey Siri. Remind me to wash the car every second week"@,
    ]
}

fn full_part_2_vec() -> (v: Vec<&'static str>)
    ensures
        str_views(v@) == full_part_2_list(),
{
    let mut v: Vec<&'static str> = Vec::new();
    v.push("Hey Siri. Tell John I’m on the way");
    v.push("Hey Siri. Ask my brother Where are you?");
    v.push("Hey Siri. Any new email from John Doe?");
    v.push("Hey Siri. Show me the email from John Doe yesterday");
    v.push("Hey Siri. Send an email to John Doe Protocol");
    v.push("Hey Siri. Check email");
    v.push("Hey Siri. Read my last email");
    v.push("Hey Siri. Post to Facebook I’m eating a sandwich");
    v.push("Hey Siri. Post to Twitter Happy New Year!");
    v.push("Hey Siri. Tweet with my location very hot here");
    v.push("Hey Siri. Show me tweets from Twitter");
    v.push("Hey Siri. Show me the latest tweets");
    v.push("Hey Siri. Schedule an event Party in New York Wednesday at 10 PM");
    v.push("Hey Siri. Schedule a meeting at 1 PM tomorrow for 2 hours");
    v.push("Hey Siri. Create a recurring event every Saturday at 2:30 PM called Party");
    v.push("Hey Siri. Set up a meeting with John for today at 3 PM");
    v.push("Hey Siri. Show me my next appointment");
    v.push("Hey Siri. Where is my next meeting?");
    v.push("Hey Siri. Show me the appointments for this afternoon");
    v.push("Hey Siri. What does my calendar look like on Monday?");
    v.push("Hey Siri. When am I meeting with John Doe?");
    v.push("Hey Siri. Cancel my Party in New York event from tomorrow");
    v.push("Hey Siri. Cancel my event with John Doe");
    v.push("Hey Siri. Move my Monday meeting with John to 3 o’clock");
    v.push("Hey Siri. Remind me on Friday at 10 PM to wash the car");
    v.push("Hey Siri. Add Milk to the Grocery list");
    v.push("Hey Siri. Remind me to wash the car when I leave home today");
    v.push("Hey Siri. Remind me to buy milk next time I’m here");
    v.push("Hey Siri. Remind me to wash the car every second week");
    proof {
        assert(str_views(v@) =~= full_part_2_list());
    }
    v
}

pub open spec fn full_part_3_list() -> Seq<Seq<char>> {
    seq![
        "Hey Siri. Delete the reminder wash the car"@,
        "Hey Siri. Show me my Grocery list"@,
        "Hey Siri. Note 12 Dollars for pizza"@,
        "Hey Siri. Note Interesting Movies"@,
        "Hey Siri. Add 10 Dollars for food to Outcomes note"@,
        "Hey Siri. Add Star Wars to Interesting Movies note"@,
        "Hey Siri. Show me my notes"@,
        "Hey Siri. Show me my note Interesting Movies"@,
        "Hey Siri. Show me my notes from last week"@,
        "Hey Siri. Tell me about the traffic in New York"@,
        "Hey Siri. What are some attractions around here?"@,
        "Hey Siri. Where is Big Ben?"@,
        "Hey Siri. Is the Central Park open now?"@,
        "Hey Siri. Distance between here and New York?"@,
        "Hey Siri. How far away is Boston?"@,
        "Hey Siri. What is the nearest restaurant?"@,
        "Hey Siri. Find a Starbucks"@,
        "Hey Siri. Good Mexican restaurants around here"@,
        "Hey Siri. Table for two in Palo Alto tonight"@,
        "Hey Siri. Make a reservation at a romantic Italian restaurant tonight at 7 PM"@,
        "Hey Siri. Show me the reviews for Alexander’s Steakhouse in Cupertino"@,
        "Hey Siri. Turn off my alarm"@,
        "Hey Siri. Delete all alarms"@,
        "Hey Siri. Turn off my Good Morning alarm"@,
        "Hey Siri. Show me my alarms"@,
        "Hey Siri. Is Ian McKellen still alive?"@,
        "Hey Siri. How tall is Ian McKellen?"@,
        "Hey Siri. Where was Ian McKellen born?"@,
        "Hey Siri. Who is Ian McKellen married to?"@,
    ]
}

fn full_part_3_vec() -> (v: Vec<&'static str>)
    ensures
        str_views(v@) == full_part_3_list(),
{
    let mut v: Vec<&'static str> = Vec::new();
    v.push("Hey Siri. Delete the reminder wash the car");
    v.push("Hey Siri. Show me my Grocery list");
    v.push("Hey Siri. Note 12 Dollars for pizza");
    v.push("Hey Siri. Note Interesting Movies");
    v.push("Hey Siri. Add 10 Dollars for food to Outcomes note");
    v.push("Hey Siri. Add Star Wars to Interesting Movies note");
    v.push("Hey Siri. Show me my notes");
    v.push("Hey Siri. Show me my note Interesting Movies");
    v.push("Hey Siri. Show me my notes from last week");
    v.push("Hey Siri. Tell me about the traffic in New York");
    v.push("Hey Siri. What are some attractions around here?");
    v.push("Hey Siri. Where is Big Ben?");
    v.push("Hey Siri. Is the Central Park open now?");
    v.push("Hey Siri. Distance between here and New York?");
    v.push("Hey Siri. How far away is Boston?");
    v.push("Hey Siri. What is the nearest restaurant?");
    v.push("Hey Siri. Find a Starbucks");
    v.push("Hey Siri. Good Mexican restaurants around here");
    v.push("Hey Siri. Table for two in Palo Alto tonight");
    v.push("Hey Siri. Make a reservation at a romantic Italian restaurant tonight at 7 PM");
    v.push("Hey Siri. Show me the reviews for Alexander’s Steakhouse in Cupertino");
    v.push("Hey Siri. Turn off my alarm");
    v.push("Hey Siri. Delete all alarms");
    v.push("Hey Siri. Turn off my Good Morning alarm");
    v.push("Hey Siri. Show me my alarms");
    v.push("Hey Siri. Is Ian McKellen still alive?");
    v.push("Hey Siri. How tall is Ian McKellen?");
    v.push("Hey Siri. Where was Ian McKellen born?");
    v.push("Hey Siri. Who is Ian McKellen married to?");
    proof {
        assert(str_views(v@) =~= full_part_3_list());
    }
    v
}

pub open spec fn full_part_4_list() -> Seq<Seq<char>> {
    seq![
        "Hey Siri. Who wrote Harry Potter?"@,
        "Hey Siri. Who invented the iPhone?"@,
        "Hey Siri. How far away is the moon?"@,
        "Hey Siri. How high is Mount Everest?"@,
        "Hey Siri. What is the population of Switzerland?"@,
        "Hey Siri. How many calories in a bagel?"@,
        "Hey Siri. How long do dogs live?"@,
        "Hey Siri. How many teeth does a dog have?"@,
        "Hey Siri. What type of Pokémon is Pikachu?"@,
        "Hey Siri. Spell necessary"@,
        "Hey Siri. What’s the weather like?"@,
        "Hey Siri. Do I need an umbrella for tomorrow?"@,
        "Hey Siri. What’s the weather going to be like in Madrid tomorrow?"@,
        "Hey Siri. Is there is a chance of rain tomorrow?"@,
        "Hey Siri. What’s the perceived temperature outside?"@,
        "Hey Siri. What’s the dew point outside?"@,
        "Hey Siri. Is it windy outside?"@,
        "Hey Siri. What’s the pressure outside?"@,
        "Hey Siri. What’s the visibility outside?"@,
        "Hey Siri. What is the KP Index?"@,
        "Hey Siri. How humid is it outside?"@,
        "Hey Siri. When is the sunrise?"@,
        "Hey Siri. When is the sunset tomorrow?"@,
        "Hey Siri. When is the sunrise on Friday?"@,
        "Hey Siri. When is the sunset in New York?"@,
        "Hey Siri. What’s the Apple stock price?"@,
        "Hey Siri. Compare Apple with Alphabet"@,
        "Hey Siri. Define airplane"@,
        "Hey Siri. What is the definition of airplane?"@,
    ]
}

fn full_part_4_vec() -> (v: Vec<&'static str>)
    ensures
        str_views(v@) == full_part_4_list(),
{
    let mut v: Vec<&'static str> = Vec::new();
    v.push("Hey Siri. Who wrote Harry Potter?");
    v.push("Hey Siri. Who invented the iPhone?");
    v.push("Hey Siri. How far away is the moon?");
    v.push("Hey Siri. How high is Mount Everest?");
    v.push("Hey Siri. What is the population of Switzerland?");
    v.push("Hey Siri. How many calories in a bagel?");
    v.push("Hey Siri. How long do dogs live?");
    v.push("Hey Siri. How many teeth does a dog have?");
    v.push("Hey Siri. What type of Pokémon is Pikachu?");
    v.push("Hey Siri. Spell necessary");
    v.push("Hey Siri. What’s the weather like?");
    v.push("Hey Siri. Do I need an umbrella for tomorrow?");
    v.push("Hey Siri. What’s the weather going to be like in Madrid tomorrow?");
    v.push("Hey Siri. Is there is a chance of rain tomorrow?");
    v.push("Hey Siri. What’s the perceived temperature outside?");
    v.push("Hey Siri. What’s the dew point outside?");
    v.push("Hey Siri. Is it windy outside?");
    v.push("Hey Siri. What’s the pressure outside?");
    v.push("Hey Siri. What’s the visibility outside?");
    v.push("Hey Siri. What is the KP Index?");
    v.push("Hey Siri. How humid is it outside?");
    v.push("Hey Siri. When is the sunrise?");
    v.push("Hey Siri. When is the sunset tomorrow?");
    v.push("Hey Siri. When is the sunrise on Friday?");
    v.push("Hey Siri. When is the sunset in New York?");
    v.push("Hey Siri. What’s the Apple stock price?");
    v.push("Hey Siri. Compare Apple with Alphabet");
    v.push("Hey Siri. Define airplane");
    v.push("Hey Siri. What is the definition of airplane?");
    proof {
        assert(str_views(v@) =~= full_part_4_list());
    }
    v
}

pub open spec fn full_part_5_list() -> Seq<Seq<char>> {
    seq![
        "Hey Siri. What does the French word maison mean in English?"@,
        "Hey Siri. Find books by Charles Dickens"@,
        "Hey Siri. Find movies by Christopher Nolan"@,
        "Hey Siri. What is the movie Indiana Jones about?"@,
        "Hey Siri. When was Indiana Jones released?"@,
        "Hey Siri. Runtime of Indiana Jones?"@,
        "Hey Siri. Who acted in Indiana Jones?"@,
        "Hey Siri. Movies with Scarlett Johansson"@,
        "Hey Siri. Best thriller movies?"@,
        "Hey Siri. Which movie won Best Picture in 1966?"@,
        "Hey Siri. What movies are playing this evening?"@,
        "Hey Siri. Buy three tickets to see The Lego Movie tonight in Sacramento"@,
        "Hey Siri. Find some movie theaters near my home"@,
        "Hey Siri. Shuffle my gym playlist"@,
        "Hey Siri. What’s this song?"@,
        "Hey Siri. Who sings this?"@,
        "Hey Siri. I like this song"@,
        "Hey Siri. What is the point spread in the NFL game?"@,
        "Hey Siri. How is Chelsea doing?"@,
        "Hey Siri. Results from Liverpool last game?"@,
        "Hey Siri. Who’s going to win the Vikings game?"@,
        "Hey Siri. When is the next Liverpool game?"@,
        "Hey Siri. What Channel is the Royals game on?"@,
        "Hey Siri. When is the Super Bowl?"@,
        "Hey Siri. Flip a coin"@,
        "Hey Siri. Pick a card"@,
        "Hey Siri. Roll a twenty-sided die"@,
        "Hey Siri. Random number between 30 and 60"@,
        "Hey Siri. See you on the seventh"@,
    ]
}

fn full_part_5_vec() -> (v: Vec<&'static str>)
    ensures
        str_views(v@) == full_part_5_list(),
{
    let mut v: Vec<&'static str> = Vec::new();
    v.push("Hey Siri. What does the French word maison mean in English?");
    v.push("Hey Siri. Find books by Charles Dickens");
    v.push("Hey Siri. Find movies by Christopher Nolan");
    v.push("Hey Siri. What is the movie Indiana Jones about?");
    v.push("Hey Siri. When was Indiana Jones released?");
    v.push("Hey Siri. Runtime of Indiana Jones?");
    v.push("Hey Siri. Who acted in Indiana Jones?");
    v.push("Hey Siri. Movies with Scarlett Johansson");
    v.push("Hey Siri. Best thriller movies?");
    v.push("Hey Siri. Which movie won Best Picture in 1966?");
    v.push("Hey Siri. What movies are playing this evening?");
    v.push("Hey Siri. Buy three tickets to see The Lego Movie tonight in Sacramento");
    v.push("Hey Siri. Find some movie theaters near my home");
    v.push("Hey Siri. Shuffle my gym playlist");
    v.push("Hey Siri. What’s this song?");
    v.push("Hey Siri. Who sings this?");
    v.push("Hey Siri. I like this song");
    v.push("Hey Siri. What is the point spread in the NFL game?");
    v.push("Hey Siri. How is Chelsea doing?");
    v.push("Hey Siri. Results from Liverpool last game?");
    v.push("Hey Siri. Who’s going to win the Vikings game?");
    v.push("Hey Siri. When is the next Liverpool game?");
    v.push("Hey Siri. What Channel is the Royals game on?");
    v.push("Hey Siri. When is the Super Bowl?");
    v.push("Hey Siri. Flip a coin");
    v.push("Hey Siri. Pick a card");
    v.push("Hey Siri. Roll a twenty-sided die");
    v.push("Hey Siri. Random number between 30 and 60");
    v.push("Hey Siri. See you on the seventh");
    proof {
        assert(str_views(v@) =~= full_part_5_list());
    }
    v
}

pub open spec fn full_part_6_list() -> Seq<Seq<char>> {
    seq![
        "Hey Siri. What is 1 million divided by 0?"@,
        "Hey Siri. What is 0 divided by 0?"@,
        "Hey Siri. What is infinity times infinity?"@,
        "Hey Siri. Rock paper scissors"@,
        "Hey Siri. Sudo make me a sandwich"@,
        "Hey Siri. Tell me a joke"@,
        "Hey Siri. Tell haiku"@,
        "Hey Siri. Tell me a tongue twister"@,
        "Hey Siri. Tell me a story"@,
        "Hey Siri. Tell me a poem"@,
        "Hey Siri. Tell me a secret"@,
        "Hey Siri. Tell me a bedtime story"@,
        "Hey Siri. Sing me a lullaby"@,
        "Hey Siri. Beam me up"@,
        "Hey Siri. Guess what"@,
        "Hey Siri. Who’s on first?"@,
        "Hey Siri. Open the pod bay doors"@,
        "Hey Siri. Sing me a song now"@,
        "Hey Siri. When is your birthday?"@,
        "Hey Siri. What’s your sign?"@,
        "Hey Siri. What’s your favourite animal?"@,
        "Hey Siri. What color is your hair?"@,
        "Hey Siri. How much do you weigh?"@,
        "Hey Siri. Are you smart?"@,
        "Hey Siri. Are you perfect?"@,
        "Hey Siri. Do you think I look fat in this?"@,
        "Hey Siri. Will you marry me?"@,
        "Hey Siri. May the force be with you"@,
        "Hey Siri. Can I call you Jarvis?"@,
    ]
}

fn full_part_6_vec() -> (v: Vec<&'static str>)
    ensures
        str_views(v@) == full_part_6_list(),
{
    let mut v: Vec<&'static str> = Vec::new();
    v.push("Hey Siri. What is 1 million divided by 0?");
    v.push("Hey Siri. What is 0 divided by 0?");
    v.push("Hey Siri. What is infinity times infinity?");
    v.push("Hey Siri. Rock paper scissors");
    v.push("Hey Siri. Sudo make me a sandwich");
    v.push("Hey Siri. Tell me a joke");
    v.push("Hey Siri. Tell haiku");
    v.push("Hey Siri. Tell me a tongue twister");
    v.push("Hey Siri. Tell me a story");
    v.push("Hey Siri. Tell me a poem");
    v.push("Hey Siri. Tell me a secret");
    v.push("Hey Siri. Tell me a bedtime story");
    v.push("Hey Siri. Sing me a lullaby");
    v.push("Hey Siri. Beam me up");
    v.push("Hey Siri. Guess what");
    v.push("Hey Siri. Who’s on first?");
    v.push("Hey Siri. Open the pod bay doors");
    v.push("Hey Siri. Sing me a song now");
    v.push("Hey Siri. When is your birthday?");
    v.push("Hey Siri. What’s your sign?");
    v.push("Hey Siri. What’s your favourite animal?");
    v.push("Hey Siri. What color is your hair?");
    v.push("Hey Siri. How much do you weigh?");
    v.push("Hey Siri. Are you smart?");
    v.push("Hey Siri. Are you perfect?");
    v.push("Hey Siri. Do you think I look fat in this?");
    v.push("Hey Siri. Will you marry me?");
    v.push("Hey Siri. May the force be with you");
    v.push("Hey Siri. Can I call you Jarvis?");
    proof {
        assert(str_views(v@) =~= full_part_6_list());
    }
    v
}

pub open spec fn full_part_7_list() -> Seq<Seq<char>> {
    seq![
        "Hey Siri. When do you sleep?"@,
        "Hey Siri. How is it to be you?"@,
        "Hey Siri. Have you seen Star Wars?"@,
        "Hey Siri. What is your favourite colour?"@,
        "Hey Siri. What are you going to be for Halloween?"@,
        "Hey Siri. Do you know pick up lines?"@,
        "Hey Siri. Mirror mirror on the wall, who’s the fairest of them all?"@,
        "Hey Siri. What does the fox say?"@,
        "Hey Siri. Who let the dogs out?"@,
        "Hey Siri. How much wood could a woodchuck chuck if a woodchuck could chuck wood?"@,
        "Hey Siri. What is the airspeed velocity of an unladen swallow?"@,
        "Hey Siri. Why are fire trucks red?"@,
        "Hey Siri. Why did the chicken cross the road?"@,
        "Hey Siri. What is the meaning of life?"@,
        "Hey Siri. When is the end of the world?"@,
        "Hey Siri. What’s the best phone?"@,
        "Hey Siri. Can I borrow some money?"@,
        "Hey Siri. supercalifragilisticexpialidocious"@,
        "Hey Siri. Rap Beatbox"@,
        "Hey Siri. Can I call you Cortana?"@,
        "Hey Siri. You’re the best"@,
        "Hey Siri. Meow"@,
        "Hey Siri. I’m sleepy"@,
        "Hey Siri. How many languages do you speak?"@,
    ]
}

fn full_part_7_vec() -> (v: Vec<&'static str>)
    ensures
        str_views(v@) == full_part_7_list(),
{
    let mut v: Vec<&'static str> = Vec::new();
    v.push("Hey Siri. When do you sleep?");
    v.push("Hey Siri. How is it to be you?");
    v.push("Hey Siri. Have you seen Star Wars?");
    v.push("Hey Siri. What is your favourite colour?");
    v.push("Hey Siri. What are you going to be for Halloween?");
    v.push("Hey Siri. Do you know pick up lines?");
    v.push("Hey Siri. Mirror mirror on the wall, who’s the fairest of them all?");
    v.push("Hey Siri. What does the fox say?");
    v.push("Hey Siri. Who let the dogs out?");
    v.push("Hey Siri. How much wood could a woodchuck chuck if a woodchuck could chuck wood?");
    v.push("Hey Siri. What is the airspeed velocity of an unladen swallow?");
    v.push("Hey Siri. Why are fire trucks red?");
    v.push("Hey Siri. Why did the chicken cross the road?");
    v.push("Hey Siri. What is the meaning of life?");
    v.push("Hey Siri. When is the end of the world?");
    v.push("Hey Siri. What’s the best phone?");
    v.push("Hey Siri. Can I borrow some money?");
    v.push("Hey Siri. supercalifragilisticexpialidocious");
    v.push("Hey Siri. Rap Beatbox");
    v.push("Hey Siri. Can I call you Cortana?");
    v.push("Hey Siri. You’re the best");
    v.push("Hey Siri. Meow");
    v.push("Hey Siri. I’m sleepy");
    v.push("Hey Siri. How many languages do you speak?");
    proof {
        assert(str_views(v@) =~= full_part_7_list());
    }
    v
}

pub open spec fn small_part_list() -> Seq<Seq<char>> {
    seq![
        "Hey Siri. What is the factorial of 6?"@,
        "Hey Siri. What day was 90 days ago?"@,
        "Hey Siri. What is the temperature in living room?"@,
        "Hey Siri. Any missed calls?"@,
        "Hey Siri. Read Calendar"@,
        "Hey Siri. Remind me to wash the car"@,
        "Hey Siri. How far is New York from Boston"@,
        "Hey Siri. How old is Ian McKellen?"@,
        "Hey Siri. What’s the temperature outside?"@,
        "Hey Siri. Translate car from English to Spanish"@,
        "Hey Siri. Roll a die"@,
        "Hey Siri. Is there a God?"@,
        "Hey Siri. What’s 2330 dollars in euros?"@,
    ]
}

fn small_part_vec() -> (v: Vec<&'static str>)
    ensures
        str_views(v@) == small_part_list(),
{
    let mut v: Vec<&'static str> = Vec::new();
    v.push("Hey Siri. What is the factorial of 6?");
    v.push("Hey Siri. What day was 90 days ago?");
    v.push("Hey Siri. What is the temperature in living room?");
    v.push("Hey Siri. Any missed calls?");
    v.push("Hey Siri. Read Calendar");
    v.push("Hey Siri. Remind me to wash the car");
    v.push("Hey Siri. How far is New York from Boston");
    v.push("Hey Siri. How old is Ian McKellen?");
    v.push("Hey Siri. What’s the temperature outside?");
    v.push("Hey Siri. Translate car from English to Spanish");
    v.push("Hey Siri. Roll a die");
    v.push("Hey Siri. Is there a God?");
    v.push("Hey Siri. What’s 2330 dollars in euros?");
    proof {
        assert(str_views(v@) =~= small_part_list());
    }
    v
}

pub open spec fn binary_part_list() -> Seq<Seq<char>> {
    seq![
        "Hey Siri. Call John Doe"@,
        "Hey Siri. Call Mary Poppins"@,
    ]
}

fn binary_part_vec() -> (v: Vec<&'static str>)
    ensures
        str_views(v@) == binary_part_list(),
{
    let mut v: Vec<&'static str> = Vec::new();
    v.push("Hey Siri. Call John Doe");
    v.push("Hey Siri. Call Mary Poppins");
    proof {
        assert(str_views(v@) =~= binary_part_list());
    }
    v
}

/// How much of the recorded data a training run works on.
#[derive(Clone, Copy, Debug, PartialEq, Eq, Structural)]
pub enum DatasetSize {
    /// The full dataset.
    Full,
    /// A small dataset with one query from each category.
    Small,
    /// A dataset with only the two call queries.
    Binary,
}

impl Default for DatasetSize {
    /// The default is the full dataset.
    fn default() -> (r: Self)
        ensures
            r == DatasetSize::Full,
    {
        DatasetSize::Full
    }
}

impl DatasetSize {
    /// The queries that belong to this dataset size.
    pub open spec fn spec_queries(self) -> Seq<Seq<char>> {
        match self {
            DatasetSize::Full => full_part_0_list() + full_part_1_list() + full_part_2_list() + full_part_3_list() + full_part_4_list() + full_part_5_list() + full_part_6_list() + full_part_7_list(),
            DatasetSize::Small => small_part_list(),
            DatasetSize::Binary => binary_part_list(),
        }
    }

    /// All queries that are used for this dataset size.
    pub fn queries(&self) -> (r: Vec<&'static str>)
        ensures
            str_views(r@) == self.spec_queries(),
    {
        match self {
            DatasetSize::Full => {
                let mut v = full_part_0_vec();
                let mut t1 = full_part_1_vec();
                let ghost before1 = v@;
                v.append(&mut t1);
                proof { lemma_str_views_add(before1, t1@); }
                let mut t2 = full_part_2_vec();
                let ghost before2 = v@;
                v.append(&mut t2);
                proof { lemma_str_views_add(before2, t2@); }
                let mut t3 = full_part_3_vec();
                let ghost before3 = v@;
                v.append(&mut t3);
                proof { lemma_str_views_add(before3, t3@); }
                let mut t4 = full_part_4_vec();
                let ghost before4 = v@;
                v.append(&mut t4);
                proof { lemma_str_views_add(before4, t4@); }
                let mut t5 = full_part_5_vec();
                let ghost before5 = v@;
                v.append(&mut t5);
                proof { lemma_str_views_add(before5, t5@); }
                let mut t6 = full_part_6_vec();
                let ghost before6 = v@;
                v.append(&mut t6);
                proof { lemma_str_views_add(before6, t6@); }
                let mut t7 = full_part_7_vec();
                let ghost before7 = v@;
                v.append(&mut t7);
                proof { lemma_str_views_add(before7, t7@); }
                v
            },
            DatasetSize::Small => small_part_vec(),
            DatasetSize::Binary => binary_part_vec(),
        }
    }

    /// Whether a query belongs to this dataset size.
    pub open spec fn keeps(self, q: Seq<char>) -> bool {
        self.spec_queries().contains(q)
    }

    /// The interactions this dataset size keeps.
    pub open spec fn spec_filter_pred(self) -> spec_fn(Interaction) -> bool {
        |x: Interaction| self.keeps(x.query@)
    }

    /// Whether the given query text belongs to this dataset size.
    pub fn contains_query(&self, q: &str) -> (r: bool)
        ensures
            r == self.keeps(q@),
    {
        let list = self.queries();
        proof {
            assert(str_views(list@).len() == list@.len());
        }
        let mut i: usize = 0;
        while i < list.len()
            invariant
                i <= list@.len(),
                str_views(list@) == self.spec_queries(),
                list@.len() == self.spec_queries().len(),
                forall|k: int| 0 <= k < i ==> self.spec_queries()[k] != q@,
            decreases list@.len() - i,
        {
            proof {
                assert(self.spec_queries()[i as int] == list@[i as int]@);
            }
            if str_eq(list[i], q) {
                proof {
                    assert(self.spec_queries()[i as int] == q@);
                }
                return true;
            }
            i = i + 1;
        }
        proof {
            if self.spec_queries().contains(q@) {
                let w = choose|w: int|
                    0 <= w < self.spec_queries().len() && self.spec_queries()[w] == q@;
                assert(false);
            }
        }
        false
    }

    /// Filter out all interactions that do not belong to this dataset size.
    /// The full dataset keeps everything; the others keep exactly the
    /// interactions whose query is one of theirs, in their original order.
    pub fn filter(&self, interactions: Vec<Interaction>) -> (r: Vec<Interaction>)
        ensures
            match self {
                DatasetSize::Full => r@ == interactions@,
                _ => r@ == interactions@.filter(self.spec_filter_pred()),
            },
    {
        if let DatasetSize::Full = self {
            return interactions;
        }
        let ghost orig = interactions@;
        let mut input = interactions;
        let mut stack: Vec<Interaction> = Vec::new();
        while input.len() != 0
            invariant
                orig == input@ + stack@.reverse(),
            decreases input@.len(),
        {
            if let Some(x) = input.pop() {
                stack.push(x);
                proof {
                    assert(orig =~= input@ + stack@.reverse());
                }
            }
        }
        proof {
            assert(stack@.reverse() =~= orig);
        }
        let mut out: Vec<Interaction> = Vec::new();
        let ghost n = orig.len() as int;
        while stack.len() != 0
            invariant
                stack@.len() <= n == orig.len(),
                stack@ == orig.subrange(n - stack@.len(), n).reverse(),
                out@ == orig.subrange(0, n - stack@.len()).filter(self.spec_filter_pred()),
            decreases stack@.len(),
        {
            let ghost processed = n - stack@.len();
            if let Some(x) = stack.pop() {
                proof {
                    let tail = orig.subrange(processed, n);
                    assert(tail.reverse().last() == tail[0]);
                    assert(x == orig[processed]);
                    assert(stack@ =~= orig.subrange(processed + 1, n).reverse());
                }
                let keep = self.contains_query(x.query.as_str());
                proof {
                    reveal(Seq::filter);
                    let p = orig.subrange(0, processed + 1);
                    assert(p.drop_last() =~= orig.subrange(0, processed));
                    assert(p.last() == x);
                }
                if keep {
                    out.push(x);
                }
            }
        }
        proof {
            assert(orig.subrange(0, n) =~= orig);
        }
        out
    }
}

} // verus!